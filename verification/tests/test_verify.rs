use kyberlib::verify::{cmov, verify};

// A buffer compared with itself gives 0, over every length.
#[test]
fn test_verify_equal_buffers() {
    let a = [0x5au8; 40];
    for len in 0..=40 {
        assert_eq!(verify(&a, &a, len), 0);
    }
    let b = [0x5au8; 64];
    assert_eq!(verify(&a, &b, 40), 0);
}

// One differing byte anywhere in the compared part gives 1.
#[test]
fn test_verify_finds_every_difference() {
    let a = [0u8; 32];
    for place in 0..32 {
        for bit in 0..8 {
            let mut b = [0u8; 32];
            b[place] = 1 << bit;
            assert_eq!(verify(&a, &b, 32), 1);
        }
    }
}

// A difference behind the compared part is not looked at.
#[test]
fn test_verify_ignores_what_lies_behind() {
    let a = [1u8, 2, 3, 4];
    let b = [1u8, 2, 3, 9];
    assert_eq!(verify(&a, &b, 3), 0);
    assert_eq!(verify(&a, &b, 4), 1);
    assert_eq!(verify(&a, &b, 0), 0);
}

// With a condition that is not zero the copy is made, whatever the value.
#[test]
fn test_cmov_copies_on_any_nonzero_condition() {
    let x = [9u8, 8, 7, 6, 5];
    for condition in [1u8, 2, 0x40, 0x80, 0xff] {
        let mut r = [1u8, 2, 3, 4, 5];
        cmov(&mut r, &x, 5, condition);
        assert_eq!(r, x);
    }
}

// With the condition zero every byte stays.
#[test]
fn test_cmov_keeps_on_zero_condition() {
    let x = [9u8, 8, 7, 6, 5];
    let mut r = [1u8, 2, 3, 4, 5];
    cmov(&mut r, &x, 5, 0);
    assert_eq!(r, [1, 2, 3, 4, 5]);
}

// Only the first `len` bytes are copied.
#[test]
fn test_cmov_copies_a_prefix() {
    let x = [9u8, 8, 7, 6, 5];
    let mut r = [1u8, 2, 3, 4, 5];
    cmov(&mut r, &x, 2, 1);
    assert_eq!(r, [9, 8, 3, 4, 5]);
    cmov(&mut r, &x, 0, 1);
    assert_eq!(r, [9, 8, 3, 4, 5]);
}

// The result of a comparison is a condition for a copy.
#[test]
fn test_verify_feeds_cmov() {
    let a = [1u8, 2, 3];
    let b = [1u8, 2, 4];
    let x = [7u8; 3];
    let mut r = [0u8; 3];
    cmov(&mut r, &x, 3, verify(&a, &a, 3));
    assert_eq!(r, [0u8; 3]);
    cmov(&mut r, &x, 3, verify(&a, &b, 3));
    assert_eq!(r, [7u8; 3]);
}
