use zero2prod::idempotency::key::{uuid_hyphenated, IdempotencyKey, IdempotencyKeyError};

#[test]
fn empty_key_is_rejected() {
    assert_eq!(IdempotencyKey::try_from(String::new()).unwrap_err(), IdempotencyKeyError::Empty);
}

#[test]
fn key_of_49_bytes_is_accepted() {
    let s = "k".repeat(49);
    let key = IdempotencyKey::try_from(s.clone()).unwrap();
    assert_eq!(key.as_ref(), s);
}

#[test]
fn key_of_50_bytes_is_rejected() {
    assert_eq!(
        IdempotencyKey::try_from("k".repeat(50)).unwrap_err(),
        IdempotencyKeyError::TooLong
    );
}

#[test]
fn key_length_is_counted_in_bytes() {
    // 16 three-byte characters are 48 bytes; 17 are 51.
    assert!(IdempotencyKey::try_from("あ".repeat(16)).is_ok());
    assert_eq!(
        IdempotencyKey::try_from("あ".repeat(17)).unwrap_err(),
        IdempotencyKeyError::TooLong
    );
}

#[test]
fn key_converts_back_to_its_string() {
    let s = "0b7c8c5e-1d55-4c3e-9d8a-3f1e2a7b9c10".to_string();
    let key = IdempotencyKey::try_from(s.clone()).unwrap();
    assert_eq!(String::from(key), s);
}

#[test]
fn key_error_messages() {
    assert_eq!(IdempotencyKeyError::Empty.message(), "冪等キーが空になることはありません。");
    assert_eq!(IdempotencyKeyError::TooLong.message(), "冪等キーは50文字を超えることはできません。");
}

#[test]
fn uuid_text_matches_the_uuid_crate() {
    let samples = [
        0u128,
        u128::MAX,
        0x67e5_5044_10b1_426f_9247_bb68_0e5f_e0c8,
        0x0123_4567_89ab_cdef_fedc_ba98_7654_3210,
    ];
    for bits in samples {
        assert_eq!(uuid_hyphenated(bits), uuid::Uuid::from_u128(bits).hyphenated().to_string());
    }
    for _ in 0..100 {
        let id = uuid::Uuid::new_v4();
        let text = uuid_hyphenated(id.as_u128());
        assert_eq!(text, id.to_string());
        assert_eq!(text.len(), 36);
        assert!(IdempotencyKey::try_from(text).is_ok());
    }
}
