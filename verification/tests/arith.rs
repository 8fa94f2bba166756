use memory_units::{native_word_size, Bytes, Pages, Words, PAGE_SIZE};

#[test]
fn add_same_unit_adds_wrapped_integers() {
    assert_eq!(Bytes(1) + Bytes(2), Bytes(3));
    assert_eq!(Words(10) + Words(0), Words(10));
    assert_eq!(Pages(4) + Pages(5), Pages(9));
}

#[test]
fn sub_same_unit_subtracts_wrapped_integers() {
    assert_eq!(Bytes(5) - Bytes(2), Bytes(3));
    assert_eq!(Words(7) - Words(7), Words(0));
    assert_eq!(Pages(9) - Pages(1), Pages(8));
}

#[test]
fn mul_same_unit_multiplies_wrapped_integers() {
    assert_eq!(Bytes(3) * Bytes(4), Bytes(12));
    assert_eq!(Words(5) * Words(1), Words(5));
    assert_eq!(Pages(0) * Pages(9), Pages(0));
}

#[test]
fn div_same_unit_divides_wrapped_integers() {
    assert_eq!(Bytes(7) / Bytes(2), Bytes(3));
    assert_eq!(Bytes(12) / Bytes(4), Bytes(3));
    assert_eq!(Words(9) / Words(3), Words(3));
    assert_eq!(Pages(8) / Pages(8), Pages(1));
}

#[test]
fn add_converts_right_operand_exactly() {
    let word: usize = native_word_size();
    let words_per_page: usize = PAGE_SIZE / word;
    assert_eq!(Bytes(0) + Pages(1), Bytes(PAGE_SIZE));
    assert_eq!(Bytes(0) + Pages(1), Bytes(4096));
    assert_eq!(Bytes(4) + Words(1), Bytes(4 + word));
    assert_eq!(Words(1) + Pages(1), Words(1 + words_per_page));
}

#[test]
fn sub_converts_right_operand_exactly() {
    let word: usize = native_word_size();
    let words_per_page: usize = PAGE_SIZE / word;
    assert_eq!(Bytes(5000) - Pages(1), Bytes(904));
    assert_eq!(Words(600) - Pages(1), Words(600 - words_per_page));
    assert_eq!(Bytes(2 * word) - Words(2), Bytes(0));
}

#[test]
fn mul_converts_right_operand_exactly() {
    let word: usize = native_word_size();
    assert_eq!(Bytes(2) * Words(1), Bytes(2 * word));
    assert_eq!(Words(3) * Pages(0), Words(0));
}

#[test]
fn div_converts_right_operand_exactly() {
    let word: usize = native_word_size();
    let words_per_page: usize = PAGE_SIZE / word;
    assert_eq!(Bytes(2 * PAGE_SIZE) / Pages(1), Bytes(2));
    assert_eq!(Bytes(17) / Words(1), Bytes(17 / word));
    assert_eq!(Words(2 * words_per_page) / Pages(1), Words(2));
}

#[test]
fn arithmetic_keeps_the_left_hand_unit() {
    let word: usize = native_word_size();
    let words_per_page: usize = PAGE_SIZE / word;
    let b: Bytes = Bytes(1) + Words(1);
    assert_eq!(b, Bytes(1 + word));
    let w: Words = Words(2) + Pages(1);
    assert_eq!(w, Words(2 + words_per_page));
}
