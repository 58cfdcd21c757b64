use keystore2::key_parameter_value::KeyParameterValue;
use keystore2::keymint::Algorithm;
use keystore2::keymint::Digest;
use keystore2::storage::SqlValue;
use keystore2::storage::StorageError;
use keystore2::tag;
use keystore2::tag::Tag;

fn corrupted(tag_name: &'static str) -> StorageError {
    StorageError::ValueCorrupted { tag_name }
}

#[test]
fn an_integer_cell_is_read_as_a_32_bit_payload() {
    let r = KeyParameterValue::new_from_sql(Tag(tag::KEY_SIZE), &SqlValue::Integer(2048));
    assert_eq!(r, Ok(KeyParameterValue::KeySize(2048)));
    let r = KeyParameterValue::new_from_sql(Tag(tag::KEY_SIZE), &SqlValue::Integer(-1));
    assert_eq!(r, Ok(KeyParameterValue::KeySize(-1)));
    let r = KeyParameterValue::new_from_sql(Tag(tag::ALGORITHM), &SqlValue::Integer(32));
    assert_eq!(r, Ok(KeyParameterValue::Algorithm(Algorithm(32))));
    let r = KeyParameterValue::new_from_sql(Tag(tag::RSA_OAEP_MGF_DIGEST), &SqlValue::Integer(4));
    assert_eq!(r, Ok(KeyParameterValue::RsaOaepMgfDigest(Digest(4))));
}

#[test]
fn the_bounds_of_32_bits_are_read() {
    let max = SqlValue::Integer(i32::MAX as i64);
    let min = SqlValue::Integer(i32::MIN as i64);
    assert_eq!(
        KeyParameterValue::new_from_sql(Tag(tag::USER_ID), &max),
        Ok(KeyParameterValue::UserID(i32::MAX))
    );
    assert_eq!(
        KeyParameterValue::new_from_sql(Tag(tag::USER_ID), &min),
        Ok(KeyParameterValue::UserID(i32::MIN))
    );
}

#[test]
fn an_integer_that_does_not_fit_32_bits_is_corrupted() {
    let above = SqlValue::Integer(i32::MAX as i64 + 1);
    let below = SqlValue::Integer(i32::MIN as i64 - 1);
    assert_eq!(KeyParameterValue::new_from_sql(Tag(tag::KEY_SIZE), &above), Err(corrupted("KEY_SIZE")));
    assert_eq!(KeyParameterValue::new_from_sql(Tag(tag::KEY_SIZE), &below), Err(corrupted("KEY_SIZE")));
    assert_eq!(
        KeyParameterValue::new_from_sql(Tag(tag::ALGORITHM), &SqlValue::Integer(i64::MAX)),
        Err(corrupted("ALGORITHM"))
    );
}

#[test]
fn an_integer_cell_is_read_as_a_64_bit_payload() {
    for i in [0, 1, -1, i64::MAX, i64::MIN, i32::MAX as i64 + 1] {
        assert_eq!(
            KeyParameterValue::new_from_sql(Tag(tag::USER_SECURE_ID), &SqlValue::Integer(i)),
            Ok(KeyParameterValue::UserSecureID(i))
        );
        assert_eq!(
            KeyParameterValue::new_from_sql(Tag(tag::ACTIVE_DATETIME), &SqlValue::Integer(i)),
            Ok(KeyParameterValue::ActiveDateTime(i))
        );
    }
}

#[test]
fn a_blob_cell_is_read_as_bytes() {
    let r = KeyParameterValue::new_from_sql(Tag(tag::NONCE), &SqlValue::Blob(vec![9, 8, 7]));
    assert_eq!(r, Ok(KeyParameterValue::Nonce(vec![9, 8, 7])));
    let r = KeyParameterValue::new_from_sql(Tag(tag::NONCE), &SqlValue::Blob(vec![]));
    assert_eq!(r, Ok(KeyParameterValue::Nonce(vec![])));
}

#[test]
fn a_cell_of_another_type_is_corrupted() {
    let others = [
        SqlValue::Null,
        SqlValue::Real,
        SqlValue::Text(vec![b'1']),
        SqlValue::Blob(vec![1]),
    ];
    for cell in &others {
        assert_eq!(KeyParameterValue::new_from_sql(Tag(tag::KEY_SIZE), cell), Err(corrupted("KEY_SIZE")));
        assert_eq!(
            KeyParameterValue::new_from_sql(Tag(tag::CREATION_DATETIME), cell),
            Err(corrupted("CREATION_DATETIME"))
        );
        assert_eq!(KeyParameterValue::new_from_sql(Tag(tag::PURPOSE), cell), Err(corrupted("PURPOSE")));
    }
    let others = [
        SqlValue::Null,
        SqlValue::Real,
        SqlValue::Text(vec![b'1']),
        SqlValue::Integer(1),
    ];
    for cell in &others {
        assert_eq!(
            KeyParameterValue::new_from_sql(Tag(tag::APPLICATION_ID), cell),
            Err(corrupted("APPLICATION_ID"))
        );
    }
}

#[test]
fn values_are_stored_as_null_integer_or_blob() {
    assert_eq!(KeyParameterValue::Invalid.to_sql(), SqlValue::Null);
    assert_eq!(KeyParameterValue::NoAuthRequired.to_sql(), SqlValue::Null);
    assert_eq!(KeyParameterValue::KeySize(256).to_sql(), SqlValue::Integer(256));
    assert_eq!(KeyParameterValue::KeySize(-2).to_sql(), SqlValue::Integer(-2));
    assert_eq!(KeyParameterValue::Algorithm(Algorithm(3)).to_sql(), SqlValue::Integer(3));
    assert_eq!(
        KeyParameterValue::RSAPublicExponent(1 << 40).to_sql(),
        SqlValue::Integer(1 << 40)
    );
    assert_eq!(KeyParameterValue::UniqueID(vec![4, 5]).to_sql(), SqlValue::Blob(vec![4, 5]));
}

#[test]
fn a_well_typed_cell_is_written_back_as_it_was() {
    let cases = [
        (tag::KEY_SIZE, SqlValue::Integer(2048)),
        (tag::DIGEST, SqlValue::Integer(4)),
        (tag::USER_SECURE_ID, SqlValue::Integer(i64::MIN)),
        (tag::CERTIFICATE_NOT_AFTER, SqlValue::Integer(253402300799000)),
        (tag::ROOT_OF_TRUST, SqlValue::Blob(vec![0, 255])),
        (tag::CALLER_NONCE, SqlValue::Null),
        (tag::INVALID, SqlValue::Null),
    ];
    for (code, cell) in cases {
        let value = KeyParameterValue::new_from_sql(Tag(code), &cell).unwrap();
        assert_eq!(value.get_tag(), Tag(code));
        assert_eq!(value.to_sql(), cell);
    }
}

#[test]
fn the_error_names_the_tag() {
    let e = KeyParameterValue::new_from_sql(Tag(tag::MAC_LENGTH), &SqlValue::Null).unwrap_err();
    assert_eq!(e, StorageError::ValueCorrupted { tag_name: "MAC_LENGTH" });
    assert_eq!(e.tag_name(), "MAC_LENGTH");
    assert_eq!(e.message(), "Failed to read sql data for tag: MAC_LENGTH.");
}

#[test]
fn a_copy_of_a_cell_is_equal_to_it() {
    for cell in [
        SqlValue::Null,
        SqlValue::Integer(5),
        SqlValue::Real,
        SqlValue::Text(vec![b'a', b'b']),
        SqlValue::Blob(vec![1, 2]),
    ] {
        assert_eq!(cell.clone(), cell);
    }
}
