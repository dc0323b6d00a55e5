use relative::text::push_decimal;
use relative::BuildId;
use relative::DecodeError;

fn decimal(n: u64) -> String {
    let mut s = String::new();
    push_decimal(&mut s, n);
    s
}

#[test]
fn push_decimal_writes_the_numeral() {
    assert_eq!(decimal(0), "0");
    assert_eq!(decimal(7), "7");
    assert_eq!(decimal(10), "10");
    assert_eq!(decimal(1234), "1234");
    assert_eq!(decimal(1_000_000), "1000000");
    assert_eq!(decimal(u64::MAX), "18446744073709551615");
}

#[test]
fn push_decimal_appends() {
    let mut s = String::from("n = ");
    push_decimal(&mut s, 405);
    push_decimal(&mut s, 6);
    assert_eq!(s, "n = 4056");
}

#[test]
fn push_decimal_agrees_with_display() {
    for &n in [0u64, 9, 10, 99, 100, 101, 65535, 65536, u64::MAX - 1].iter() {
        assert_eq!(decimal(n), n.to_string());
    }
}

#[test]
fn message_of_a_build_mismatch_shows_both_builds() {
    let error = DecodeError::CrossBinaryMismatch {
        found: BuildId(0x936d_a01f_9abd_4d9d_80c7_02af_85c8_22a8),
        expected: BuildId(0x0000_0000_0000_0000_0000_0000_0000_00ff),
    };
    assert_eq!(
        error.message("dyn core::any::Any"),
        "relative reference came from a different binary \
         936da01f-9abd-4d9d-80c7-02af85c822a8, expected 00000000-0000-0000-0000-0000000000ff"
    );
}

#[test]
fn message_of_a_build_mismatch_agrees_with_uuid() {
    let found = uuid::Uuid::from_u128(0x0123_4567_89ab_cdef_fedc_ba98_7654_3210);
    let expected = build_id::get();
    let error = DecodeError::CrossBinaryMismatch {
        found: BuildId(found.as_u128()),
        expected: BuildId(expected.as_u128()),
    };
    assert_eq!(
        error.message(""),
        format!(
            "relative reference came from a different binary {}, expected {}",
            found, expected
        )
    );
    assert!(error.message("").contains("01234567-89ab-cdef-fedc-ba9876543210"));
}

#[test]
fn message_of_a_type_mismatch_shows_both_fingerprints_and_the_name() {
    let error = DecodeError::TypeMismatch { found: 42, expected: 18446744073709551615 };
    assert_eq!(
        error.message("dyn core::fmt::Display"),
        "relative reference to wrong type ???:42, expected \
         dyn core::fmt::Display:18446744073709551615"
    );
    let error = DecodeError::TypeMismatch { found: 0, expected: 1 };
    assert_eq!(error.message("u8"), "relative reference to wrong type ???:0, expected u8:1");
}
