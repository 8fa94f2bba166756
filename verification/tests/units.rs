use memory_units::{native_word_size, size_of, Bytes, Pages, Words, PAGE_SIZE};

struct Empty;

#[test]
fn equality_same_unit() {
    assert_eq!(Bytes(5), Bytes(5));
    assert_ne!(Bytes(5), Bytes(6));
    assert_eq!(Words(0), Words(0));
    assert_ne!(Words(1), Words(2));
    assert_eq!(Pages(7), Pages(7));
    assert_ne!(Pages(7), Pages(8));
}

#[test]
fn ordering_follows_wrapped_integer() {
    assert!(Bytes(3) < Bytes(4));
    assert!(Bytes(4) > Bytes(3));
    assert!(Bytes(3) <= Bytes(3));
    assert!(Words(2) >= Words(2));
    assert!(Pages(0) < Pages(1));
    assert_eq!(Bytes(3).max(Bytes(4)), Bytes(4));
    assert_eq!(Words(9).min(Words(2)), Words(2));
}

#[test]
fn platform_constants() {
    assert_eq!(PAGE_SIZE, 4096);
    let word: usize = native_word_size();
    assert_eq!(word, std::mem::size_of::<usize>());
    assert!(word == 4 || word == 8);
    assert_eq!(PAGE_SIZE % word, 0);
}

#[test]
fn size_of_zero_sized_is_zero() {
    assert_eq!(size_of::<Empty>(), Bytes(0));
    assert_eq!(size_of::<()>(), Bytes(0));
}

#[test]
fn size_of_reports_layout() {
    assert_eq!(size_of::<u8>(), Bytes(1));
    assert_eq!(size_of::<u32>(), Bytes(4));
    assert_eq!(size_of::<u64>(), Bytes(8));
    assert_eq!(size_of::<[u8; 5]>(), Bytes(5));
    assert_eq!(size_of::<usize>(), Bytes(native_word_size()));
}

#[test]
fn debug_shows_wrapped_integer() {
    assert_eq!(format!("{:?}", Bytes(3)), "Bytes(3)");
    assert_eq!(format!("{:?}", Words(4)), "Words(4)");
    assert_eq!(format!("{:?}", Pages(5)), "Pages(5)");
}

#[test]
fn values_are_copied_on_use() {
    let a: Bytes = Bytes(9);
    let b: Bytes = a;
    assert_eq!(a, b);
    assert_eq!(a, a.clone());
}
