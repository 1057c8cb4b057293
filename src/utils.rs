use vstd::prelude::*;

verus! {

/// A primitive integer type whose non-negative values widen losslessly into
/// `usize`.
pub trait ConstIntoUSize: Copy {
    /// The mathematical value of `self`.
    spec fn as_int(&self) -> int;

    /// Converts `self` into `usize` without loss, where it fits.
    fn to_usize(self) -> (r: usize)
        requires
            0 <= self.as_int() <= usize::MAX,
        ensures
            r as int == self.as_int(),
    ;
}

impl ConstIntoUSize for u8 {
    open spec fn as_int(&self) -> int {
        *self as int
    }

    fn to_usize(self) -> (r: usize) {
        self as usize
    }
}

impl ConstIntoUSize for u16 {
    open spec fn as_int(&self) -> int {
        *self as int
    }

    fn to_usize(self) -> (r: usize) {
        self as usize
    }
}

impl ConstIntoUSize for u32 {
    open spec fn as_int(&self) -> int {
        *self as int
    }

    fn to_usize(self) -> (r: usize) {
        self as usize
    }
}

impl ConstIntoUSize for u64 {
    open spec fn as_int(&self) -> int {
        *self as int
    }

    fn to_usize(self) -> (r: usize) {
        self as usize
    }
}

impl ConstIntoUSize for usize {
    open spec fn as_int(&self) -> int {
        *self as int
    }

    fn to_usize(self) -> (r: usize) {
        self
    }
}

impl ConstIntoUSize for i8 {
    open spec fn as_int(&self) -> int {
        *self as int
    }

    fn to_usize(self) -> (r: usize) {
        self as usize
    }
}

impl ConstIntoUSize for i16 {
    open spec fn as_int(&self) -> int {
        *self as int
    }

    fn to_usize(self) -> (r: usize) {
        self as usize
    }
}

impl ConstIntoUSize for i32 {
    open spec fn as_int(&self) -> int {
        *self as int
    }

    fn to_usize(self) -> (r: usize) {
        self as usize
    }
}

impl ConstIntoUSize for i64 {
    open spec fn as_int(&self) -> int {
        *self as int
    }

    fn to_usize(self) -> (r: usize) {
        self as usize
    }
}

impl ConstIntoUSize for isize {
    open spec fn as_int(&self) -> int {
        *self as int
    }

    fn to_usize(self) -> (r: usize) {
        self as usize
    }
}

/// Widens a discriminant value into the platform index type.
pub fn into_usize<T: ConstIntoUSize>(value: T) -> (r: usize)
    requires
        0 <= value.as_int() <= usize::MAX,
    ensures
        r as int == value.as_int(),
{
    value.to_usize()
}

/// A source type whose values can be read as values of `Dst` without loss.
pub trait TransmuteSafe<Dst: Copy>: Copy {
    /// The value of `Dst` that `self` reads as.
    spec fn reinterpret_spec(self) -> Dst;

    /// Reads `self` as a value of `Dst`.
    fn reinterpret(self) -> (r: Dst)
        ensures
            r == self.reinterpret_spec(),
    ;
}

/// Reads `src` as a value of `Dst`.
pub fn transmute_safe<Src, Dst>(src: Src) -> (r: Dst) where Src: TransmuteSafe<Dst>, Dst: Copy
    ensures
        r == src.reinterpret_spec(),
{
    transmute_copy_safe(&src)
}

/// Reads the value behind `src` as a value of `Dst`.
pub fn transmute_copy_safe<Src, Dst>(src: &Src) -> (r: Dst) where Src: TransmuteSafe<Dst>, Dst: Copy
    ensures
        r == (*src).reinterpret_spec(),
{
    (*src).reinterpret()
}

/// A type-level `usize`.
pub struct ConstUSize<const N: usize>;

/// Types that stand for a `usize` known at compile time.
pub trait IsConstUSize {
    /// The number this type stands for.
    spec fn n_spec() -> usize;

    /// Returns the number this type stands for.
    fn n() -> (r: usize)
        ensures
            r == Self::n_spec(),
    ;
}

impl<const N: usize> IsConstUSize for ConstUSize<N> {
    open spec fn n_spec() -> usize {
        N
    }

    fn n() -> (r: usize) {
        N
    }
}

/// Type equality: `T: Is<U>` holds exactly when `T` and `U` are one type.
pub trait Is<Rhs> {}

impl<T> Is<T> for T {}

} // verus!
