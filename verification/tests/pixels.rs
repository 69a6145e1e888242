use prtsc::pixels::{holds_frame, repack_rows};

#[test]
fn drops_the_padding_of_rows() {
    let src = [1u8, 2, 3, 99, 4, 5, 6, 99, 7, 8, 9];
    assert_eq!(repack_rows(&src, 4, 3, 3), vec![1, 2, 3, 4, 5, 6, 7, 8, 9]);
}

#[test]
fn takes_unpadded_rows_as_they_are() {
    let src = [1u8, 2, 3, 4, 5];
    assert_eq!(repack_rows(&src, 2, 2, 2), vec![1, 2, 3, 4]);
}

#[test]
fn padding_makes_no_difference() {
    let one = [1u8, 2, 0, 3, 4, 0];
    let other = [1u8, 2, 7, 3, 4, 8];
    assert_eq!(repack_rows(&one, 3, 2, 2), repack_rows(&other, 3, 2, 2));
}

#[test]
fn the_amount_of_padding_makes_no_difference() {
    let narrow = [1u8, 2, 0, 3, 4, 0];
    let wide = [1u8, 2, 7, 7, 7, 3, 4];
    assert_eq!(repack_rows(&narrow, 3, 2, 2), repack_rows(&wide, 5, 2, 2));
}

#[test]
fn rows_may_overlap() {
    assert_eq!(repack_rows(&[1u8, 2, 3], 0, 2, 3), vec![1, 2, 1, 2, 1, 2]);
    assert_eq!(repack_rows(&[1u8, 2, 3], 1, 2, 2), vec![1, 2, 2, 3]);
}

#[test]
fn no_rows_give_no_bytes() {
    assert_eq!(repack_rows(&[], 5, 3, 0), Vec::<u8>::new());
    assert_eq!(repack_rows(&[], 0, 0, 7), Vec::<u8>::new());
}

#[test]
fn a_frame_fits_with_its_last_row_unpadded() {
    assert!(holds_frame(2, 2, 8, 16));
    assert!(!holds_frame(2, 2, 8, 15));
    assert!(holds_frame(2, 2, 12, 20));
    assert!(!holds_frame(2, 2, 12, 19));
}

#[test]
fn a_frame_with_an_odd_dimension_does_not_fit() {
    assert!(!holds_frame(3, 2, 12, 1000));
    assert!(!holds_frame(2, 3, 8, 1000));
}

#[test]
fn a_frame_beyond_the_address_space_does_not_fit() {
    assert!(!holds_frame(usize::MAX - 1, 2, 4, usize::MAX));
    assert!(!holds_frame(2, usize::MAX - 1, usize::MAX, usize::MAX));
}
