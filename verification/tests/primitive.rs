use keystore2::key_parameter_value::KeyParameterValue;
use keystore2::keymint::Algorithm;
use keystore2::keymint::BlockMode;
use keystore2::keymint::Digest;
use keystore2::keymint::EcCurve;
use keystore2::keymint::HardwareAuthenticatorType;
use keystore2::keymint::KeyOrigin;
use keystore2::keymint::KeyPurpose;
use keystore2::keymint::PaddingMode;
use keystore2::keymint::SecurityLevel;
use keystore2::primitive::AssociatePrimitive;
use keystore2::primitive::Primitive;
use keystore2::primitive::PrimitiveError;
use keystore2::tag;
use keystore2::tag::Tag;

#[test]
fn each_raw_type_has_its_own_case() {
    assert_eq!(Primitive::from(5i32), Primitive::I32(5));
    assert_eq!(Primitive::from(5i64), Primitive::I64(5));
    assert_eq!(Primitive::from(vec![5u8]), Primitive::Vec(vec![5]));
}

#[test]
fn a_primitive_gives_back_only_its_own_type() {
    assert_eq!(i32::try_from(Primitive::I32(7)), Ok(7));
    assert_eq!(i32::try_from(Primitive::I64(7)), Err(PrimitiveError::TypeMismatch));
    assert_eq!(i32::try_from(Primitive::Vec(vec![7])), Err(PrimitiveError::TypeMismatch));
    assert_eq!(i64::try_from(Primitive::I64(7)), Ok(7));
    assert_eq!(i64::try_from(Primitive::I32(7)), Err(PrimitiveError::TypeMismatch));
    assert_eq!(i64::try_from(Primitive::Vec(vec![7])), Err(PrimitiveError::TypeMismatch));
    assert_eq!(Vec::<u8>::try_from(Primitive::Vec(vec![7])), Ok(vec![7]));
    assert_eq!(Vec::<u8>::try_from(Primitive::I32(7)), Err(PrimitiveError::TypeMismatch));
    assert_eq!(Vec::<u8>::try_from(Primitive::I64(7)), Err(PrimitiveError::TypeMismatch));
}

#[test]
fn the_errors_describe_themselves() {
    assert_eq!(
        PrimitiveError::TypeMismatch.message(),
        "Primitive does not match the expected tag type."
    );
    assert_eq!(PrimitiveError::UnknownTag.message(), "Unknown tag.");
}

#[test]
fn enumerations_stand_as_their_number() {
    assert_eq!(Algorithm(32).to_primitive(), 32);
    assert_eq!(Algorithm::from_primitive(32), Algorithm(32));
    assert_eq!(BlockMode::from_primitive(1).to_primitive(), 1);
    assert_eq!(Digest::from_primitive(4), Digest(4));
    assert_eq!(EcCurve::from_primitive(-1), EcCurve(-1));
    assert_eq!(HardwareAuthenticatorType::from_primitive(2), HardwareAuthenticatorType(2));
    assert_eq!(KeyOrigin::from_primitive(0), KeyOrigin(0));
    assert_eq!(KeyPurpose::from_primitive(3), KeyPurpose(3));
    assert_eq!(PaddingMode::from_primitive(64), PaddingMode(64));
    assert_eq!(SecurityLevel(100).to_primitive(), 100);
    assert_eq!(SecurityLevel::from_primitive(1), SecurityLevel(1));
}

#[test]
fn raw_types_stand_as_themselves() {
    assert_eq!(<i32>::from_primitive(5), 5);
    assert_eq!(5i32.to_primitive(), 5);
    assert_eq!(<i64>::from_primitive(i64::MAX), i64::MAX);
    assert_eq!(i64::MIN.to_primitive(), i64::MIN);
    assert_eq!(<Vec<u8>>::from_primitive(vec![1, 2]), vec![1, 2]);
    assert_eq!(vec![1u8, 2].to_primitive(), vec![1, 2]);
}

#[test]
fn a_payload_makes_its_parameter_through_its_primitive() {
    let algorithm = Algorithm(3);
    assert_eq!(
        KeyParameterValue::new_from_tag_primitive_pair(Tag(tag::ALGORITHM), algorithm.to_primitive()),
        Ok(KeyParameterValue::Algorithm(algorithm))
    );
    let purpose = KeyPurpose(2);
    assert_eq!(
        KeyParameterValue::new_from_tag_primitive_pair(Tag(tag::PURPOSE), purpose.to_primitive()),
        Ok(KeyParameterValue::KeyPurpose(purpose))
    );
    let exponent: i64 = 65537;
    assert_eq!(
        KeyParameterValue::new_from_tag_primitive_pair(
            Tag(tag::RSA_PUBLIC_EXPONENT),
            exponent.to_primitive()
        ),
        Ok(KeyParameterValue::RSAPublicExponent(65537))
    );
    let challenge: Vec<u8> = vec![1, 2, 3];
    assert_eq!(
        KeyParameterValue::new_from_tag_primitive_pair(
            Tag(tag::ATTESTATION_CHALLENGE),
            challenge.to_primitive()
        ),
        Ok(KeyParameterValue::AttestationChallenge(vec![1, 2, 3]))
    );
}

#[test]
fn a_primitive_itself_can_be_paired_with_a_tag() {
    assert_eq!(
        KeyParameterValue::new_from_tag_primitive_pair(Tag(tag::KEY_SIZE), Primitive::I32(128)),
        Ok(KeyParameterValue::KeySize(128))
    );
    assert_eq!(
        KeyParameterValue::new_from_tag_primitive_pair(Tag(tag::KEY_SIZE), Primitive::Vec(vec![])),
        Err(PrimitiveError::TypeMismatch)
    );
}
