use keystore2::key_parameter::Authorization;
use keystore2::key_parameter::KeyParameter;
use keystore2::key_parameter_value::KeyParameterValue;
use keystore2::keymint::Algorithm;
use keystore2::keymint::KmKeyParameter;
use keystore2::keymint::KmKeyParameterValue;
use keystore2::keymint::SecurityLevel;
use keystore2::storage::SqlValue;
use keystore2::storage::StorageError;
use keystore2::tag;
use keystore2::tag::Tag;

#[test]
fn a_key_parameter_keeps_what_it_was_made_of() {
    let kp = KeyParameter::new(KeyParameterValue::Algorithm(Algorithm(1)), SecurityLevel(1));
    assert_eq!(kp.get_tag(), Tag(tag::ALGORITHM));
    assert_eq!(*kp.key_parameter_value(), KeyParameterValue::Algorithm(Algorithm(1)));
    assert_eq!(*kp.security_level(), SecurityLevel(1));
}

#[test]
fn a_key_parameter_is_read_from_the_store() {
    let kp = KeyParameter::new_from_sql(Tag(tag::KEY_SIZE), &SqlValue::Integer(1024), SecurityLevel(2))
        .unwrap();
    assert_eq!(kp, KeyParameter::new(KeyParameterValue::KeySize(1024), SecurityLevel(2)));
}

#[test]
fn a_key_parameter_with_an_unlisted_tag_is_read_as_invalid() {
    let kp = KeyParameter::new_from_sql(Tag(999), &SqlValue::Integer(1024), SecurityLevel(0)).unwrap();
    assert_eq!(kp.get_tag(), Tag(tag::INVALID));
    assert_eq!(*kp.key_parameter_value(), KeyParameterValue::Invalid);
    assert_eq!(*kp.security_level(), SecurityLevel(0));
}

#[test]
fn a_corrupted_cell_makes_no_key_parameter() {
    let r = KeyParameter::new_from_sql(Tag(tag::KEY_SIZE), &SqlValue::Blob(vec![1]), SecurityLevel(2));
    assert_eq!(r, Err(StorageError::ValueCorrupted { tag_name: "KEY_SIZE" }));
}

#[test]
fn an_authorization_holds_the_level_and_the_wire_parameter() {
    let kp = KeyParameter::new(KeyParameterValue::UserID(10), SecurityLevel(1));
    assert_eq!(
        kp.into_authorization(),
        Authorization {
            security_level: SecurityLevel(1),
            key_parameter: KmKeyParameter {
                tag: Tag(tag::USER_ID),
                value: KmKeyParameterValue::Integer(10),
            },
        }
    );
    let flag = KeyParameter::new(KeyParameterValue::EarlyBootOnly, SecurityLevel(2));
    assert_eq!(
        flag.into_authorization(),
        Authorization {
            security_level: SecurityLevel(2),
            key_parameter: KmKeyParameter {
                tag: Tag(tag::EARLY_BOOT_ONLY),
                value: KmKeyParameterValue::BoolValue(true),
            },
        }
    );
}

#[test]
fn key_parameters_are_ordered_by_value_then_level() {
    let a = KeyParameter::new(KeyParameterValue::KeySize(1), SecurityLevel(5));
    let b = KeyParameter::new(KeyParameterValue::KeySize(2), SecurityLevel(0));
    let c = KeyParameter::new(KeyParameterValue::KeySize(2), SecurityLevel(1));
    assert!(a < b);
    assert!(b < c);
    assert_eq!(a.clone(), a);
}
