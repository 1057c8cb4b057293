use const_assoc::{
    assoc, has_duplicate_keys, into_usize, key_to_index, transmute_copy_safe, transmute_safe, Assoc, ConstUSize,
    EnumKeyImpl, IsConstUSize, PhantomArray, PrimitiveEnum, PrimitiveEnumLayout,
};

#[derive(Clone, Copy, Debug, PartialEq)]
enum Letter {
    A,
    B,
    C,
}

impl PrimitiveEnum for Letter {
    type Layout = PrimitiveEnumLayout<u8, 3>;

    fn discriminant_value_of(self) -> u8 {
        self as u8
    }

    fn discriminant(self) -> u8 {
        self as u8
    }

    fn lemma_discriminant_in_range(self) {}

    fn lemma_discriminant_injective(self, _other: Self) {}

    fn lemma_greatest_discriminant() {}
}

#[derive(Clone, Copy, Debug, PartialEq)]
enum Sparse {
    X,
    Y,
}

impl PrimitiveEnum for Sparse {
    type Layout = PrimitiveEnumLayout<u16, 6>;

    fn discriminant_value_of(self) -> u16 {
        match self {
            Sparse::X => 0,
            Sparse::Y => 5,
        }
    }

    fn discriminant(self) -> u16 {
        self.discriminant_value_of()
    }

    fn lemma_discriminant_in_range(self) {}

    fn lemma_discriminant_injective(self, _other: Self) {}

    fn lemma_greatest_discriminant() {}
}

#[derive(Clone, Copy, Debug, PartialEq)]
enum Only {
    One,
}

impl PrimitiveEnum for Only {
    type Layout = PrimitiveEnumLayout<u64, 1>;

    fn discriminant_value_of(self) -> u64 {
        0
    }

    fn discriminant(self) -> u64 {
        0
    }

    fn lemma_discriminant_in_range(self) {}

    fn lemma_discriminant_injective(self, _other: Self) {}

    fn lemma_greatest_discriminant() {}
}

#[derive(Clone, Copy, Debug, PartialEq)]
enum Wide {
    Low,
    High,
}

impl PrimitiveEnum for Wide {
    type Layout = PrimitiveEnumLayout<u32, 301>;

    fn discriminant_value_of(self) -> u32 {
        match self {
            Wide::Low => 1,
            Wide::High => 300,
        }
    }

    fn discriminant(self) -> u32 {
        self.discriminant_value_of()
    }

    fn lemma_discriminant_in_range(self) {}

    fn lemma_discriminant_injective(self, _other: Self) {}

    fn lemma_greatest_discriminant() {}
}

#[derive(Clone, Copy, Debug, PartialEq)]
enum Signed {
    Zero,
    Two,
}

impl PrimitiveEnum for Signed {
    type Layout = PrimitiveEnumLayout<i16, 3>;

    fn discriminant_value_of(self) -> i16 {
        match self {
            Signed::Zero => 0,
            Signed::Two => 2,
        }
    }

    fn discriminant(self) -> i16 {
        self.discriminant_value_of()
    }

    fn lemma_discriminant_in_range(self) {}

    fn lemma_discriminant_injective(self, _other: Self) {}

    fn lemma_greatest_discriminant() {}
}

#[test]
fn letters_from_pairs() {
    let map = assoc([Letter::A, Letter::B, Letter::C], ['a', 'b', 'c']).unwrap();
    assert_eq!(*map.get(Letter::A), 'a');
    assert_eq!(*map.get(Letter::B), 'b');
    assert_eq!(*map.get(Letter::C), 'c');
    assert_eq!(map[Letter::A], 'a');
    assert_eq!(map[Letter::C], 'c');
    assert_eq!(map.len(), 3);
    assert!(!map.is_empty());
}

#[test]
fn pairs_in_any_order() {
    let map = assoc([Letter::C, Letter::A, Letter::B], [3, 1, 2]).unwrap();
    assert_eq!(map.into_values(), vec![1, 2, 3]);
}

#[test]
fn duplicate_keys_are_refused() {
    assert!(assoc([Letter::A, Letter::A, Letter::C], ['x', 'y', 'z']).is_none());
    assert!(assoc([Letter::A, Letter::B, Letter::B], [1, 2, 3]).is_none());
    let values = [String::from("p"), String::from("q"), String::from("r")];
    let keys = [Letter::C, Letter::B, Letter::C];
    assert!(has_duplicate_keys(&keys, PhantomArray::new(&values)));
    assert!(assoc(keys, values).is_none());
}

#[test]
fn distinct_keys_have_no_duplicates() {
    let values = [0u8; 3];
    let keys = [Letter::B, Letter::C, Letter::A];
    assert!(!has_duplicate_keys(&keys, PhantomArray::new(&values)));
}

#[test]
fn wrong_pair_count_is_refused() {
    assert!(assoc([Letter::A, Letter::B], ['a', 'b']).is_none());
    assert!(assoc([Letter::A, Letter::B, Letter::C, Letter::A], [1, 2, 3, 4]).is_none());
}

#[test]
fn from_values_round_trip() {
    let mut map: Assoc<Letter, i32> = Assoc::from_values([10, 20, 30]);
    assert_eq!(*map.get(Letter::A), 10);
    assert_eq!(*map.const_get(Letter::B), 20);
    assert_eq!(*map.get(Letter::C), 30);
    *map.get_mut(Letter::B) = 25;
    assert_eq!(*map.get(Letter::A), 10);
    assert_eq!(*map.get(Letter::B), 25);
    assert_eq!(*map.get(Letter::C), 30);
    *map.const_get_mut(Letter::C) += 1;
    assert_eq!(map.values(), &[10, 25, 31]);
}

#[test]
fn reading_twice_gives_the_same_value() {
    let map: Assoc<Letter, String> =
        Assoc::from_values([String::from("x"), String::from("y"), String::from("z")]);
    let first = map.get(Letter::B).clone();
    let second = map.get(Letter::B).clone();
    assert_eq!(first, second);
    assert_eq!(map.const_get(Letter::B), map.get(Letter::B));
}

#[test]
fn single_variant_key() {
    let mut map = assoc([Only::One], ['s']).unwrap();
    assert_eq!(map.len(), 1);
    assert_eq!(*map.get(Only::One), 's');
    assert_eq!(*map.const_get(Only::One), 's');
    *map.get_mut(Only::One) = 't';
    assert_eq!(*map.get(Only::One), 't');
    *map.const_get_mut(Only::One) = 'u';
    assert_eq!(*map.get(Only::One), 'u');
    assert_eq!(key_to_index(Only::One), 0);
}

#[test]
fn sparse_discriminants() {
    assert_eq!(key_to_index(Sparse::X), 0);
    assert_eq!(key_to_index(Sparse::Y), 5);
    let map: Assoc<Sparse, u8> = Assoc::from_values([1, 2, 3, 4, 5, 6]);
    assert_eq!(map.len(), 6);
    assert_eq!(*map.get(Sparse::X), 1);
    assert_eq!(*map.get(Sparse::Y), 6);
    assert!(assoc([Sparse::X, Sparse::Y], [1u8, 2u8]).is_none());
}

#[test]
fn indices_are_discriminants() {
    assert_eq!(key_to_index(Letter::A), 0);
    assert_eq!(key_to_index(Letter::B), 1);
    assert_eq!(key_to_index(Letter::C), 2);
    assert_eq!(key_to_index(Wide::Low), 1);
    assert_eq!(key_to_index(Wide::High), 300);
    let map: Assoc<Wide, u16> = Assoc::from_values([7u16; 301]);
    assert_eq!(map.len(), 301);
}

#[test]
fn widening_into_usize() {
    assert_eq!(into_usize(200u8), 200);
    assert_eq!(into_usize(60000u16), 60000);
    assert_eq!(into_usize(4_000_000_000u32), 4_000_000_000);
    assert_eq!(into_usize(123_456_789_012u64), 123_456_789_012);
    assert_eq!(into_usize(42usize), 42);
    assert_eq!(<ConstUSize<9> as IsConstUSize>::n(), 9);
}

#[test]
fn reinterpreting_a_key_keeps_it() {
    let wrapped: EnumKeyImpl<Letter> = transmute_safe(Letter::C);
    assert_eq!(wrapped.0, Letter::C);
}

#[test]
fn values_mut_changes_slots() {
    let mut map: Assoc<Letter, u32> = Assoc::from_values([1, 2, 3]);
    for v in map.values_mut() {
        *v *= 10;
    }
    assert_eq!(*map.get(Letter::A), 10);
    assert_eq!(*map.get(Letter::C), 30);
}

#[test]
fn uninit_then_filled() {
    let mut map: Assoc<Letter, Option<char>> = Assoc::new_uninit();
    assert!(map.values().iter().all(|v| v.is_none()));
    *map.get_mut(Letter::B) = Some('b');
    *map.get_mut(Letter::A) = Some('a');
    *map.get_mut(Letter::C) = Some('c');
    let map = map.assume_init();
    assert_eq!(map.into_values(), vec!['a', 'b', 'c']);
}

#[test]
fn empty_checks() {
    let map: Assoc<Only, ()> = Assoc::from_values([()]);
    assert!(!map.is_empty());
}

#[test]
fn default_fills_every_slot() {
    let map: Assoc<Sparse, u32> = Assoc::default();
    assert_eq!(map.len(), 6);
    assert_eq!(map.values(), &[0, 0, 0, 0, 0, 0]);
    assert_eq!(map[Sparse::Y], 0);
}

#[test]
fn copy_reinterpretation_reads_the_key() {
    let key = Letter::B;
    let wrapped: EnumKeyImpl<Letter> = transmute_copy_safe(&key);
    assert_eq!(wrapped.0, Letter::B);
}

#[test]
fn signed_discriminants() {
    assert_eq!(key_to_index(Signed::Zero), 0);
    assert_eq!(key_to_index(Signed::Two), 2);
    let map: Assoc<Signed, char> = Assoc::from_values(['p', 'q', 'r']);
    assert_eq!(map[Signed::Two], 'r');
    assert_eq!(into_usize(127i8), 127);
    assert_eq!(into_usize(30000i16), 30000);
    assert_eq!(into_usize(2_000_000_000i32), 2_000_000_000);
    assert_eq!(into_usize(9_000_000_000i64), 9_000_000_000);
    assert_eq!(into_usize(5isize), 5);
}

#[test]
fn default_of_strings() {
    let map: Assoc<Letter, String> = Assoc::default();
    assert_eq!(map.len(), 3);
    assert!(map.values().iter().all(|v| v.is_empty()));
}
