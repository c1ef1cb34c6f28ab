use implot::{find_nul, Label, NulError};

#[test]
fn clean_text_becomes_a_label_of_its_bytes() {
    let label = Label::new("voltage").unwrap();
    assert_eq!(label.as_bytes(), b"voltage");
    assert_eq!(label.len(), 7);
    assert!(!label.is_empty());
}

#[test]
fn text_with_a_zero_byte_is_rejected_at_the_first_one() {
    assert_eq!(Label::new("ab\0cd\0"), Err(NulError { nul_position: 2 }));
    assert_eq!(Label::new("\0"), Err(NulError { nul_position: 0 }));
}

#[test]
fn zero_position_counts_bytes_not_characters() {
    // The two letters before the zero take two bytes each.
    assert_eq!(Label::new("éü\0"), Err(NulError { nul_position: 4 }));
}

#[test]
fn text_beyond_ascii_keeps_its_encoding() {
    let label = Label::new("Δt [µs]").unwrap();
    assert_eq!(label.as_bytes(), "Δt [µs]".as_bytes());
    assert_eq!(label.len(), 9);
}

#[test]
fn empty_text_is_an_empty_label() {
    let label = Label::new("").unwrap();
    assert!(label.is_empty());
    assert_eq!(label, Label::empty());
    assert_eq!(label.to_bytes_with_nul(), vec![0u8]);
}

#[test]
fn label_is_terminated_by_one_zero_byte() {
    let label = Label::new("x").unwrap();
    assert_eq!(label.to_bytes_with_nul(), vec![b'x', 0]);
    let long = Label::new("time in s").unwrap().to_bytes_with_nul();
    assert_eq!(long.len(), 10);
    assert_eq!(long.iter().filter(|byte| **byte == 0).count(), 1);
    assert_eq!(*long.last().unwrap(), 0);
}

#[test]
fn label_of_clean_text_needs_no_check() {
    assert_eq!(Label::from_clean_text("abc"), Label::new("abc").unwrap());
}

#[test]
fn label_of_bytes_is_checked_like_text() {
    assert_eq!(Label::from_bytes(&[1, 2, 3]).unwrap().as_bytes(), &[1, 2, 3]);
    assert_eq!(Label::from_bytes(&[1, 0, 3]), Err(NulError { nul_position: 1 }));
    assert_eq!(Label::from_bytes(&[]).unwrap(), Label::empty());
}

#[test]
fn copy_of_a_label_equals_it() {
    let label = Label::new("copy me").unwrap();
    assert_eq!(label.clone(), label);
}

#[test]
fn first_zero_byte_is_found() {
    assert_eq!(find_nul(b"abc"), None);
    assert_eq!(find_nul(b""), None);
    assert_eq!(find_nul(&[7, 0, 0]), Some(1));
    assert_eq!(find_nul(&[0]), Some(0));
    assert_eq!(find_nul(&[1, 2, 3, 0]), Some(3));
}
