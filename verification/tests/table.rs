use keystore2::class::PayloadClass;
use keystore2::key_parameter_value::KeyParameterValue;
use keystore2::keymint::Algorithm;
use keystore2::keymint::BlockMode;
use keystore2::keymint::Digest;
use keystore2::keymint::EcCurve;
use keystore2::keymint::HardwareAuthenticatorType;
use keystore2::keymint::KeyOrigin;
use keystore2::keymint::KeyPurpose;
use keystore2::keymint::PaddingMode;
use keystore2::keymint::Field;
use keystore2::keymint::KmKeyParameter;
use keystore2::keymint::KmKeyParameterValue;
use keystore2::primitive::Primitive;
use keystore2::primitive::PrimitiveError;
use keystore2::storage::SqlValue;
use keystore2::tag;
use keystore2::tag::Tag;

/// One sample of every variant, with the primitive that makes it.
fn samples() -> Vec<(KeyParameterValue, Primitive)> {
    vec![
        (KeyParameterValue::Invalid, Primitive::I32(0)),
        (KeyParameterValue::KeyPurpose(KeyPurpose(101)), Primitive::I32(101)),
        (KeyParameterValue::Algorithm(Algorithm(102)), Primitive::I32(102)),
        (KeyParameterValue::KeySize(103), Primitive::I32(103)),
        (KeyParameterValue::BlockMode(BlockMode(104)), Primitive::I32(104)),
        (KeyParameterValue::Digest(Digest(105)), Primitive::I32(105)),
        (KeyParameterValue::RsaOaepMgfDigest(Digest(106)), Primitive::I32(106)),
        (KeyParameterValue::PaddingMode(PaddingMode(107)), Primitive::I32(107)),
        (KeyParameterValue::CallerNonce, Primitive::I32(0)),
        (KeyParameterValue::MinMacLength(109), Primitive::I32(109)),
        (KeyParameterValue::EcCurve(EcCurve(110)), Primitive::I32(110)),
        (KeyParameterValue::RSAPublicExponent(1110000000000), Primitive::I64(1110000000000)),
        (KeyParameterValue::IncludeUniqueID, Primitive::I32(0)),
        (KeyParameterValue::BootLoaderOnly, Primitive::I32(0)),
        (KeyParameterValue::RollbackResistance, Primitive::I32(0)),
        (KeyParameterValue::EarlyBootOnly, Primitive::I32(0)),
        (KeyParameterValue::ActiveDateTime(1160000000000), Primitive::I64(1160000000000)),
        (KeyParameterValue::OriginationExpireDateTime(1170000000000), Primitive::I64(1170000000000)),
        (KeyParameterValue::UsageExpireDateTime(1180000000000), Primitive::I64(1180000000000)),
        (KeyParameterValue::MinSecondsBetweenOps(119), Primitive::I32(119)),
        (KeyParameterValue::MaxUsesPerBoot(120), Primitive::I32(120)),
        (KeyParameterValue::UsageCountLimit(121), Primitive::I32(121)),
        (KeyParameterValue::UserID(122), Primitive::I32(122)),
        (KeyParameterValue::UserSecureID(1230000000000), Primitive::I64(1230000000000)),
        (KeyParameterValue::NoAuthRequired, Primitive::I32(0)),
        (KeyParameterValue::HardwareAuthenticatorType(HardwareAuthenticatorType(125)), Primitive::I32(125)),
        (KeyParameterValue::AuthTimeout(126), Primitive::I32(126)),
        (KeyParameterValue::AllowWhileOnBody, Primitive::I32(0)),
        (KeyParameterValue::TrustedUserPresenceRequired, Primitive::I32(0)),
        (KeyParameterValue::TrustedConfirmationRequired, Primitive::I32(0)),
        (KeyParameterValue::UnlockedDeviceRequired, Primitive::I32(0)),
        (KeyParameterValue::ApplicationID(vec![131, 2, 3]), Primitive::Vec(vec![131, 2, 3])),
        (KeyParameterValue::ApplicationData(vec![132, 2, 3]), Primitive::Vec(vec![132, 2, 3])),
        (KeyParameterValue::CreationDateTime(1330000000000), Primitive::I64(1330000000000)),
        (KeyParameterValue::KeyOrigin(KeyOrigin(134)), Primitive::I32(134)),
        (KeyParameterValue::RootOfTrust(vec![135, 2, 3]), Primitive::Vec(vec![135, 2, 3])),
        (KeyParameterValue::OSVersion(136), Primitive::I32(136)),
        (KeyParameterValue::OSPatchLevel(137), Primitive::I32(137)),
        (KeyParameterValue::UniqueID(vec![138, 2, 3]), Primitive::Vec(vec![138, 2, 3])),
        (KeyParameterValue::AttestationChallenge(vec![139, 2, 3]), Primitive::Vec(vec![139, 2, 3])),
        (KeyParameterValue::AttestationApplicationID(vec![140, 2, 3]), Primitive::Vec(vec![140, 2, 3])),
        (KeyParameterValue::AttestationIdBrand(vec![141, 2, 3]), Primitive::Vec(vec![141, 2, 3])),
        (KeyParameterValue::AttestationIdDevice(vec![142, 2, 3]), Primitive::Vec(vec![142, 2, 3])),
        (KeyParameterValue::AttestationIdProduct(vec![143, 2, 3]), Primitive::Vec(vec![143, 2, 3])),
        (KeyParameterValue::AttestationIdSerial(vec![144, 2, 3]), Primitive::Vec(vec![144, 2, 3])),
        (KeyParameterValue::AttestationIdIMEI(vec![145, 2, 3]), Primitive::Vec(vec![145, 2, 3])),
        (KeyParameterValue::AttestationIdSecondIMEI(vec![146, 2, 3]), Primitive::Vec(vec![146, 2, 3])),
        (KeyParameterValue::AttestationIdMEID(vec![147, 2, 3]), Primitive::Vec(vec![147, 2, 3])),
        (KeyParameterValue::AttestationIdManufacturer(vec![148, 2, 3]), Primitive::Vec(vec![148, 2, 3])),
        (KeyParameterValue::AttestationIdModel(vec![149, 2, 3]), Primitive::Vec(vec![149, 2, 3])),
        (KeyParameterValue::VendorPatchLevel(150), Primitive::I32(150)),
        (KeyParameterValue::BootPatchLevel(151), Primitive::I32(151)),
        (KeyParameterValue::AssociatedData(vec![152, 2, 3]), Primitive::Vec(vec![152, 2, 3])),
        (KeyParameterValue::Nonce(vec![153, 2, 3]), Primitive::Vec(vec![153, 2, 3])),
        (KeyParameterValue::MacLength(154), Primitive::I32(154)),
        (KeyParameterValue::ResetSinceIdRotation, Primitive::I32(0)),
        (KeyParameterValue::ConfirmationToken(vec![156, 2, 3]), Primitive::Vec(vec![156, 2, 3])),
        (KeyParameterValue::CertificateSerial(vec![157, 2, 3]), Primitive::Vec(vec![157, 2, 3])),
        (KeyParameterValue::CertificateSubject(vec![158, 2, 3]), Primitive::Vec(vec![158, 2, 3])),
        (KeyParameterValue::CertificateNotBefore(1590000000000), Primitive::I64(1590000000000)),
        (KeyParameterValue::CertificateNotAfter(1600000000000), Primitive::I64(1600000000000)),
        (KeyParameterValue::MaxBootLevel(161), Primitive::I32(161)),
    ]
}

/// The codes of the listed tags, in the order of the variants.
fn listed_tags() -> Vec<i32> {
    vec![
        tag::INVALID,
        tag::PURPOSE,
        tag::ALGORITHM,
        tag::KEY_SIZE,
        tag::BLOCK_MODE,
        tag::DIGEST,
        tag::RSA_OAEP_MGF_DIGEST,
        tag::PADDING,
        tag::CALLER_NONCE,
        tag::MIN_MAC_LENGTH,
        tag::EC_CURVE,
        tag::RSA_PUBLIC_EXPONENT,
        tag::INCLUDE_UNIQUE_ID,
        tag::BOOTLOADER_ONLY,
        tag::ROLLBACK_RESISTANCE,
        tag::EARLY_BOOT_ONLY,
        tag::ACTIVE_DATETIME,
        tag::ORIGINATION_EXPIRE_DATETIME,
        tag::USAGE_EXPIRE_DATETIME,
        tag::MIN_SECONDS_BETWEEN_OPS,
        tag::MAX_USES_PER_BOOT,
        tag::USAGE_COUNT_LIMIT,
        tag::USER_ID,
        tag::USER_SECURE_ID,
        tag::NO_AUTH_REQUIRED,
        tag::USER_AUTH_TYPE,
        tag::AUTH_TIMEOUT,
        tag::ALLOW_WHILE_ON_BODY,
        tag::TRUSTED_USER_PRESENCE_REQUIRED,
        tag::TRUSTED_CONFIRMATION_REQUIRED,
        tag::UNLOCKED_DEVICE_REQUIRED,
        tag::APPLICATION_ID,
        tag::APPLICATION_DATA,
        tag::CREATION_DATETIME,
        tag::ORIGIN,
        tag::ROOT_OF_TRUST,
        tag::OS_VERSION,
        tag::OS_PATCHLEVEL,
        tag::UNIQUE_ID,
        tag::ATTESTATION_CHALLENGE,
        tag::ATTESTATION_APPLICATION_ID,
        tag::ATTESTATION_ID_BRAND,
        tag::ATTESTATION_ID_DEVICE,
        tag::ATTESTATION_ID_PRODUCT,
        tag::ATTESTATION_ID_SERIAL,
        tag::ATTESTATION_ID_IMEI,
        tag::ATTESTATION_ID_SECOND_IMEI,
        tag::ATTESTATION_ID_MEID,
        tag::ATTESTATION_ID_MANUFACTURER,
        tag::ATTESTATION_ID_MODEL,
        tag::VENDOR_PATCHLEVEL,
        tag::BOOT_PATCHLEVEL,
        tag::ASSOCIATED_DATA,
        tag::NONCE,
        tag::MAC_LENGTH,
        tag::RESET_SINCE_ID_ROTATION,
        tag::CONFIRMATION_TOKEN,
        tag::CERTIFICATE_SERIAL,
        tag::CERTIFICATE_SUBJECT,
        tag::CERTIFICATE_NOT_BEFORE,
        tag::CERTIFICATE_NOT_AFTER,
        tag::MAX_BOOT_LEVEL,
    ]
}

fn has_payload(value: &KeyParameterValue) -> bool {
    value.to_sql() != SqlValue::Null
}

#[test]
fn there_are_as_many_variants_as_listed_tags() {
    assert_eq!(samples().len(), 62);
    assert_eq!(listed_tags().len(), 62);
}

#[test]
fn every_variant_has_the_listed_tag_of_its_place() {
    let tags = listed_tags();
    for (i, (value, _)) in samples().iter().enumerate() {
        assert_eq!(value.get_tag(), Tag(tags[i]));
        assert!(value.get_tag().payload_class().is_some());
        assert!(value.get_tag().name().is_some());
    }
}

#[test]
fn no_two_variants_share_a_tag() {
    let tags = listed_tags();
    for i in 0..tags.len() {
        for j in 0..tags.len() {
            if i != j {
                assert_ne!(tags[i], tags[j]);
            }
        }
    }
}

#[test]
fn every_listed_tag_makes_its_own_variant() {
    let tags = listed_tags();
    for (i, (value, primitive)) in samples().iter().enumerate() {
        let made = KeyParameterValue::new_from_tag_primitive(Tag(tags[i]), primitive.clone());
        assert_eq!(made.as_ref(), Ok(value));
    }
}

#[test]
fn primitive_round_trip_for_every_variant() {
    for (value, primitive) in samples() {
        let made = KeyParameterValue::new_from_tag_primitive(value.get_tag(), primitive);
        assert_eq!(made, Ok(value));
    }
}

#[test]
fn wire_field_is_the_field_of_the_class() {
    for (value, _) in samples() {
        let class = value.get_tag().payload_class().unwrap();
        let wire: KmKeyParameter = value.clone().into();
        assert_eq!(wire.tag, value.get_tag());
        assert_eq!(wire.value.field(), class.field());
    }
}

#[test]
fn stored_cell_is_of_the_kind_of_the_class() {
    for (value, _) in samples() {
        let class = value.get_tag().payload_class().unwrap();
        let cell = value.to_sql();
        match class {
            PayloadClass::Empty | PayloadClass::Flag => assert_eq!(cell, SqlValue::Null),
            PayloadClass::Bytes => assert!(matches!(cell, SqlValue::Blob(_))),
            _ => assert!(matches!(cell, SqlValue::Integer(_))),
        }
    }
}

#[test]
fn wire_round_trip_for_every_variant() {
    for (value, _) in samples() {
        let wire: KmKeyParameter = value.clone().into();
        let by_reference = KeyParameterValue::from(&wire);
        let back: KeyParameterValue = wire.into();
        assert_eq!(back, value);
        assert_eq!(by_reference, value);
    }
}

#[test]
fn storage_round_trip_for_every_variant() {
    for (value, _) in samples() {
        let cell = value.to_sql();
        let back = KeyParameterValue::new_from_sql(value.get_tag(), &cell).unwrap();
        assert_eq!(back, value);
        assert_eq!(back.to_sql(), cell);
    }
}

#[test]
fn flags_travel_as_true() {
    let mut flags = 0;
    for (value, _) in samples() {
        if value.get_tag().payload_class() == Some(PayloadClass::Flag) {
            let wire: KmKeyParameter = value.into();
            assert_eq!(wire.value, KmKeyParameterValue::BoolValue(true));
            flags += 1;
        }
    }
    assert_eq!(flags, 11);
}

#[test]
fn invalid_travels_as_zero() {
    let wire: KmKeyParameter = KeyParameterValue::Invalid.into();
    assert_eq!(wire.tag, Tag(tag::INVALID));
    assert_eq!(wire.value, KmKeyParameterValue::Invalid(0));
    assert_eq!(Tag(tag::INVALID).payload_class(), Some(PayloadClass::Empty));
}

#[test]
fn a_flag_on_the_wire_holds_whatever_its_field_says() {
    let wire = KmKeyParameter {
        tag: Tag(tag::CALLER_NONCE),
        value: KmKeyParameterValue::BoolValue(false),
    };
    assert_eq!(KeyParameterValue::from(wire), KeyParameterValue::CallerNonce);
    let invalid = KmKeyParameter { tag: Tag(tag::INVALID), value: KmKeyParameterValue::Invalid(7) };
    assert_eq!(KeyParameterValue::from(invalid), KeyParameterValue::Invalid);
}

#[test]
fn a_wire_parameter_in_the_wrong_field_is_invalid() {
    for code in listed_tags() {
        let class = Tag(code).payload_class().unwrap();
        let wire = KmKeyParameter {
            tag: Tag(code),
            value: KmKeyParameterValue::SecurityLevel(keystore2::keymint::SecurityLevel(1)),
        };
        assert_ne!(class.field(), Field::SecurityLevel);
        assert_eq!(KeyParameterValue::from(wire), KeyParameterValue::Invalid);
    }
    let wire = KmKeyParameter {
        tag: Tag(tag::KEY_SIZE),
        value: KmKeyParameterValue::LongInteger(2048),
    };
    assert_eq!(KeyParameterValue::from(wire), KeyParameterValue::Invalid);
    let wire = KmKeyParameter {
        tag: Tag(tag::ACTIVE_DATETIME),
        value: KmKeyParameterValue::LongInteger(2048),
    };
    assert_eq!(KeyParameterValue::from(wire), KeyParameterValue::Invalid);
    let wire = KmKeyParameter {
        tag: Tag(tag::DIGEST),
        value: KmKeyParameterValue::Integer(4),
    };
    assert_eq!(KeyParameterValue::from(wire), KeyParameterValue::Invalid);
}

#[test]
fn a_wire_parameter_with_an_unlisted_tag_is_invalid() {
    let wire = KmKeyParameter { tag: Tag(12345), value: KmKeyParameterValue::Integer(1) };
    assert_eq!(KeyParameterValue::from(wire), KeyParameterValue::Invalid);
    let wire = KmKeyParameter { tag: Tag(-1), value: KmKeyParameterValue::Invalid(0) };
    assert_eq!(KeyParameterValue::from(wire), KeyParameterValue::Invalid);
}

#[test]
fn an_unlisted_tag_reads_invalid_from_the_store() {
    for cell in [
        SqlValue::Null,
        SqlValue::Integer(5),
        SqlValue::Real,
        SqlValue::Text(vec![b'a']),
        SqlValue::Blob(vec![1]),
    ] {
        assert_eq!(KeyParameterValue::new_from_sql(Tag(12345), &cell), Ok(KeyParameterValue::Invalid));
    }
}

#[test]
fn an_unlisted_tag_makes_nothing_from_a_primitive() {
    for code in [12345, -1, 1, tag::KEY_SIZE + 1, i32::MIN, i32::MAX] {
        assert_eq!(Tag(code).payload_class(), None);
        assert_eq!(Tag(code).name(), None);
        assert_eq!(
            KeyParameterValue::new_from_tag_primitive(Tag(code), Primitive::I32(1)),
            Err(PrimitiveError::UnknownTag)
        );
        assert_eq!(
            KeyParameterValue::new_from_tag_primitive_pair(Tag(code), vec![1u8]),
            Err(PrimitiveError::UnknownTag)
        );
    }
}

#[test]
fn a_primitive_of_another_shape_is_refused() {
    for (value, primitive) in samples() {
        if !has_payload(&value) {
            continue;
        }
        for other in [Primitive::I32(1), Primitive::I64(1), Primitive::Vec(vec![1])] {
            let same_shape = matches!(
                (&primitive, &other),
                (Primitive::I32(_), Primitive::I32(_))
                    | (Primitive::I64(_), Primitive::I64(_))
                    | (Primitive::Vec(_), Primitive::Vec(_))
            );
            let made = KeyParameterValue::new_from_tag_primitive(value.get_tag(), other);
            if same_shape {
                assert!(made.is_ok());
                assert_eq!(made.unwrap().get_tag(), value.get_tag());
            } else {
                assert_eq!(made, Err(PrimitiveError::TypeMismatch));
            }
        }
    }
}

#[test]
fn a_tag_without_payload_takes_any_primitive() {
    for (value, _) in samples() {
        if has_payload(&value) {
            continue;
        }
        for other in [Primitive::I32(1), Primitive::I64(1), Primitive::Vec(vec![1])] {
            let made = KeyParameterValue::new_from_tag_primitive(value.get_tag(), other);
            assert_eq!(made.as_ref(), Ok(&value));
        }
    }
}

#[test]
fn a_tag_without_payload_reads_from_any_cell() {
    for (value, _) in samples() {
        if has_payload(&value) {
            continue;
        }
        for cell in [SqlValue::Null, SqlValue::Integer(5), SqlValue::Real, SqlValue::Blob(vec![1])] {
            assert_eq!(KeyParameterValue::new_from_sql(value.get_tag(), &cell).as_ref(), Ok(&value));
        }
    }
}

#[test]
fn tag_names_are_those_of_the_interface() {
    assert_eq!(Tag(tag::INVALID).name(), Some("INVALID"));
    assert_eq!(Tag(tag::KEY_SIZE).name(), Some("KEY_SIZE"));
    assert_eq!(Tag(tag::USER_AUTH_TYPE).name(), Some("USER_AUTH_TYPE"));
    assert_eq!(Tag(tag::ORIGIN).name(), Some("ORIGIN"));
    assert_eq!(Tag(tag::PURPOSE).name(), Some("PURPOSE"));
    assert_eq!(Tag(tag::PADDING).name(), Some("PADDING"));
    assert_eq!(Tag(tag::ATTESTATION_ID_SECOND_IMEI).name(), Some("ATTESTATION_ID_SECOND_IMEI"));
}

#[test]
fn tag_codes_hold_the_type_in_the_upper_bits() {
    assert_eq!(tag::INVALID, 0);
    assert_eq!(tag::ALGORITHM, (1 << 28) | 2);
    assert_eq!(tag::PURPOSE, (2 << 28) | 1);
    assert_eq!(tag::KEY_SIZE, (3 << 28) | 3);
    assert_eq!(tag::RSA_PUBLIC_EXPONENT, (5 << 28) | 200);
    assert_eq!(tag::ACTIVE_DATETIME, (6 << 28) | 400);
    assert_eq!(tag::CALLER_NONCE, (7 << 28) | 7);
    assert_eq!(tag::CERTIFICATE_SERIAL as u32, (8 << 28) | 1006);
    assert_eq!(tag::APPLICATION_ID as u32, (9 << 28) | 601);
    assert_eq!(tag::USER_SECURE_ID as u32, (10 << 28) | 502);
    assert_eq!(tag::MAX_BOOT_LEVEL, (3 << 28) | 1010);
}

#[test]
fn classes_of_some_tags() {
    assert_eq!(Tag(tag::KEY_SIZE).payload_class(), Some(PayloadClass::Int32));
    assert_eq!(Tag(tag::RSA_PUBLIC_EXPONENT).payload_class(), Some(PayloadClass::Int64));
    assert_eq!(Tag(tag::USER_SECURE_ID).payload_class(), Some(PayloadClass::Int64));
    assert_eq!(Tag(tag::CREATION_DATETIME).payload_class(), Some(PayloadClass::DateTime));
    assert_eq!(Tag(tag::NONCE).payload_class(), Some(PayloadClass::Bytes));
    assert_eq!(Tag(tag::CERTIFICATE_SERIAL).payload_class(), Some(PayloadClass::Bytes));
    assert_eq!(Tag(tag::NO_AUTH_REQUIRED).payload_class(), Some(PayloadClass::Flag));
    assert_eq!(Tag(tag::ALGORITHM).payload_class(), Some(PayloadClass::Algorithm));
    assert_eq!(Tag(tag::BLOCK_MODE).payload_class(), Some(PayloadClass::BlockMode));
    assert_eq!(Tag(tag::PADDING).payload_class(), Some(PayloadClass::PaddingMode));
    assert_eq!(Tag(tag::DIGEST).payload_class(), Some(PayloadClass::Digest));
    assert_eq!(Tag(tag::RSA_OAEP_MGF_DIGEST).payload_class(), Some(PayloadClass::Digest));
    assert_eq!(Tag(tag::EC_CURVE).payload_class(), Some(PayloadClass::EcCurve));
    assert_eq!(Tag(tag::ORIGIN).payload_class(), Some(PayloadClass::KeyOrigin));
    assert_eq!(Tag(tag::PURPOSE).payload_class(), Some(PayloadClass::KeyPurpose));
    assert_eq!(
        Tag(tag::USER_AUTH_TYPE).payload_class(),
        Some(PayloadClass::HardwareAuthenticatorType)
    );
}

#[test]
fn fields_of_the_classes() {
    assert_eq!(PayloadClass::Empty.field(), Field::Invalid);
    assert_eq!(PayloadClass::Flag.field(), Field::BoolValue);
    assert_eq!(PayloadClass::Int32.field(), Field::Integer);
    assert_eq!(PayloadClass::Int64.field(), Field::LongInteger);
    assert_eq!(PayloadClass::DateTime.field(), Field::DateTime);
    assert_eq!(PayloadClass::Bytes.field(), Field::Blob);
    assert_eq!(PayloadClass::Algorithm.field(), Field::Algorithm);
    assert_eq!(PayloadClass::BlockMode.field(), Field::BlockMode);
    assert_eq!(PayloadClass::PaddingMode.field(), Field::PaddingMode);
    assert_eq!(PayloadClass::Digest.field(), Field::Digest);
    assert_eq!(PayloadClass::EcCurve.field(), Field::EcCurve);
    assert_eq!(PayloadClass::KeyOrigin.field(), Field::Origin);
    assert_eq!(PayloadClass::KeyPurpose.field(), Field::KeyPurpose);
    assert_eq!(
        PayloadClass::HardwareAuthenticatorType.field(),
        Field::HardwareAuthenticatorType
    );
}

#[test]
fn a_copy_is_equal_to_its_source() {
    for (value, primitive) in samples() {
        assert_eq!(value.clone(), value);
        assert_eq!(primitive.clone(), primitive);
    }
}
