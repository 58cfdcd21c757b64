use keystore2::key_parameter_value::KeyParameterValue;
use keystore2::keymint::KmKeyParameter;
use keystore2::keymint::KmKeyParameterValue;
use keystore2::primitive::PrimitiveError;
use keystore2::storage::SqlValue;
use keystore2::tag;
use keystore2::tag::Tag;

#[test]
fn key_size_survives_the_wire() {
    let value = KeyParameterValue::new_from_tag_primitive_pair(Tag(tag::KEY_SIZE), 2048i32).unwrap();
    assert_eq!(value, KeyParameterValue::KeySize(2048));
    let wire: KmKeyParameter = value.into();
    assert_eq!(wire.tag, Tag(tag::KEY_SIZE));
    assert_eq!(wire.value, KmKeyParameterValue::Integer(2048));
    let back: KeyParameterValue = wire.into();
    assert_eq!(back, KeyParameterValue::KeySize(2048));
}

#[test]
fn application_id_survives_the_store() {
    let value = KeyParameterValue::ApplicationID(vec![0x01, 0x02]);
    let cell = value.to_sql();
    assert_eq!(cell, SqlValue::Blob(vec![0x01, 0x02]));
    let back = KeyParameterValue::new_from_sql(Tag(tag::APPLICATION_ID), &cell).unwrap();
    assert_eq!(back, KeyParameterValue::ApplicationID(vec![0x01, 0x02]));
}

#[test]
fn wide_integer_is_refused_for_a_narrow_tag() {
    let r = KeyParameterValue::new_from_tag_primitive_pair(Tag(tag::KEY_SIZE), 2048i64);
    assert_eq!(r, Err(PrimitiveError::TypeMismatch));
}
