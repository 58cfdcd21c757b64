//! What holds of the table and of the conversions taken together.

use vstd::prelude::*;
use crate::class::class_of;
use crate::class::Payload;
use crate::class::PayloadClass;
use crate::key_parameter_value::KeyParameterValue;
use crate::keymint::Algorithm;
use crate::keymint::BlockMode;
use crate::keymint::Digest;
use crate::keymint::EcCurve;
use crate::keymint::HardwareAuthenticatorType;
use crate::keymint::KeyOrigin;
use crate::keymint::KeyPurpose;
use crate::keymint::PaddingMode;
use crate::keymint::WireValue;
use crate::model::ParameterModel;
use crate::primitive::PrimitiveError;
use crate::storage::cell_fits;
use crate::storage::Cell;
use crate::tag;
use crate::tag::Tag;

verus! {

/// The tags that have a name are the tags that the table lists.
pub proof fn lemma_named_tags_are_listed(tag: Tag)
    ensures
        tag.is_known() <==> class_of(tag) is Some,
{
}

/// Every variant belongs to a tag that the table lists.
pub proof fn lemma_variant_has_listed_tag(value: KeyParameterValue)
    ensures
        class_of(value.tag()) is Some,
{
}

/// Two values have the same tag exactly when they are of the same variant:
/// no two variants share a tag.
pub proof fn lemma_tag_determines_variant(a: KeyParameterValue, b: KeyParameterValue)
    ensures
        a.tag() == b.tag() <==> a.ordinal() == b.ordinal(),
{
}

/// Two values with the same content are of the same variant and carry the
/// same payload: the content stands for the value.
pub proof fn lemma_content_determines_value(a: KeyParameterValue, b: KeyParameterValue)
    requires
        a@ == b@,
    ensures
        a.ordinal() == b.ordinal(),
        a.payload() == b.payload(),
{
}

/// Every tag that the table lists is the tag of some variant.
pub proof fn lemma_listed_tag_has_variant(tag: Tag)
    requires
        class_of(tag) is Some,
    ensures
        exists|value: KeyParameterValue| value.tag() == tag,
{
    let bytes: Vec<u8> = arbitrary();
    let value = match tag.0 {
        tag::PURPOSE => KeyParameterValue::KeyPurpose(KeyPurpose(0)),
        tag::ALGORITHM => KeyParameterValue::Algorithm(Algorithm(0)),
        tag::KEY_SIZE => KeyParameterValue::KeySize(0),
        tag::BLOCK_MODE => KeyParameterValue::BlockMode(BlockMode(0)),
        tag::DIGEST => KeyParameterValue::Digest(Digest(0)),
        tag::RSA_OAEP_MGF_DIGEST => KeyParameterValue::RsaOaepMgfDigest(Digest(0)),
        tag::PADDING => KeyParameterValue::PaddingMode(PaddingMode(0)),
        tag::CALLER_NONCE => KeyParameterValue::CallerNonce,
        tag::MIN_MAC_LENGTH => KeyParameterValue::MinMacLength(0),
        tag::EC_CURVE => KeyParameterValue::EcCurve(EcCurve(0)),
        tag::RSA_PUBLIC_EXPONENT => KeyParameterValue::RSAPublicExponent(0),
        tag::INCLUDE_UNIQUE_ID => KeyParameterValue::IncludeUniqueID,
        tag::BOOTLOADER_ONLY => KeyParameterValue::BootLoaderOnly,
        tag::ROLLBACK_RESISTANCE => KeyParameterValue::RollbackResistance,
        tag::EARLY_BOOT_ONLY => KeyParameterValue::EarlyBootOnly,
        tag::ACTIVE_DATETIME => KeyParameterValue::ActiveDateTime(0),
        tag::ORIGINATION_EXPIRE_DATETIME => KeyParameterValue::OriginationExpireDateTime(0),
        tag::USAGE_EXPIRE_DATETIME => KeyParameterValue::UsageExpireDateTime(0),
        tag::MIN_SECONDS_BETWEEN_OPS => KeyParameterValue::MinSecondsBetweenOps(0),
        tag::MAX_USES_PER_BOOT => KeyParameterValue::MaxUsesPerBoot(0),
        tag::USAGE_COUNT_LIMIT => KeyParameterValue::UsageCountLimit(0),
        tag::USER_ID => KeyParameterValue::UserID(0),
        tag::USER_SECURE_ID => KeyParameterValue::UserSecureID(0),
        tag::NO_AUTH_REQUIRED => KeyParameterValue::NoAuthRequired,
        tag::USER_AUTH_TYPE => KeyParameterValue::HardwareAuthenticatorType(HardwareAuthenticatorType(0)),
        tag::AUTH_TIMEOUT => KeyParameterValue::AuthTimeout(0),
        tag::ALLOW_WHILE_ON_BODY => KeyParameterValue::AllowWhileOnBody,
        tag::TRUSTED_USER_PRESENCE_REQUIRED => KeyParameterValue::TrustedUserPresenceRequired,
        tag::TRUSTED_CONFIRMATION_REQUIRED => KeyParameterValue::TrustedConfirmationRequired,
        tag::UNLOCKED_DEVICE_REQUIRED => KeyParameterValue::UnlockedDeviceRequired,
        tag::APPLICATION_ID => KeyParameterValue::ApplicationID(bytes),
        tag::APPLICATION_DATA => KeyParameterValue::ApplicationData(bytes),
        tag::CREATION_DATETIME => KeyParameterValue::CreationDateTime(0),
        tag::ORIGIN => KeyParameterValue::KeyOrigin(KeyOrigin(0)),
        tag::ROOT_OF_TRUST => KeyParameterValue::RootOfTrust(bytes),
        tag::OS_VERSION => KeyParameterValue::OSVersion(0),
        tag::OS_PATCHLEVEL => KeyParameterValue::OSPatchLevel(0),
        tag::UNIQUE_ID => KeyParameterValue::UniqueID(bytes),
        tag::ATTESTATION_CHALLENGE => KeyParameterValue::AttestationChallenge(bytes),
        tag::ATTESTATION_APPLICATION_ID => KeyParameterValue::AttestationApplicationID(bytes),
        tag::ATTESTATION_ID_BRAND => KeyParameterValue::AttestationIdBrand(bytes),
        tag::ATTESTATION_ID_DEVICE => KeyParameterValue::AttestationIdDevice(bytes),
        tag::ATTESTATION_ID_PRODUCT => KeyParameterValue::AttestationIdProduct(bytes),
        tag::ATTESTATION_ID_SERIAL => KeyParameterValue::AttestationIdSerial(bytes),
        tag::ATTESTATION_ID_IMEI => KeyParameterValue::AttestationIdIMEI(bytes),
        tag::ATTESTATION_ID_SECOND_IMEI => KeyParameterValue::AttestationIdSecondIMEI(bytes),
        tag::ATTESTATION_ID_MEID => KeyParameterValue::AttestationIdMEID(bytes),
        tag::ATTESTATION_ID_MANUFACTURER => KeyParameterValue::AttestationIdManufacturer(bytes),
        tag::ATTESTATION_ID_MODEL => KeyParameterValue::AttestationIdModel(bytes),
        tag::VENDOR_PATCHLEVEL => KeyParameterValue::VendorPatchLevel(0),
        tag::BOOT_PATCHLEVEL => KeyParameterValue::BootPatchLevel(0),
        tag::ASSOCIATED_DATA => KeyParameterValue::AssociatedData(bytes),
        tag::NONCE => KeyParameterValue::Nonce(bytes),
        tag::MAC_LENGTH => KeyParameterValue::MacLength(0),
        tag::RESET_SINCE_ID_ROTATION => KeyParameterValue::ResetSinceIdRotation,
        tag::CONFIRMATION_TOKEN => KeyParameterValue::ConfirmationToken(bytes),
        tag::CERTIFICATE_SERIAL => KeyParameterValue::CertificateSerial(bytes),
        tag::CERTIFICATE_SUBJECT => KeyParameterValue::CertificateSubject(bytes),
        tag::CERTIFICATE_NOT_BEFORE => KeyParameterValue::CertificateNotBefore(0),
        tag::CERTIFICATE_NOT_AFTER => KeyParameterValue::CertificateNotAfter(0),
        tag::MAX_BOOT_LEVEL => KeyParameterValue::MaxBootLevel(0),
        _ => KeyParameterValue::Invalid,
    };
    assert(value.tag() == tag);
}

/// The payload of every value has the shape that the class of its tag
/// declares.
pub proof fn lemma_payload_fits_class(value: KeyParameterValue)
    ensures
        value@.well_formed(),
{
}

/// On the wire, every value travels under its own tag, in the field of the
/// class of its tag, and the field holds the payload.
pub proof fn lemma_wire_field_fits_class(value: KeyParameterValue)
    ensures
        value@.to_wire().tag == value.tag(),
        value@.to_wire().value.field() == class_of(value.tag())->Some_0.field(),
        value.payload() !is Absent ==> value@.to_wire().value.payload() == value.payload(),
{
}

/// In the store, every value is held in a cell of the kind of the class of
/// its tag.
pub proof fn lemma_cell_fits_class(value: KeyParameterValue)
    ensures
        cell_fits(class_of(value.tag())->Some_0, value@.to_cell()),
{
}

/// A flag travels as `true`, and the invalid value as zero.
pub proof fn lemma_bare_values_on_the_wire(value: KeyParameterValue)
    ensures
        class_of(value.tag()) == Some(PayloadClass::Flag) ==> value@.to_wire().value
            == WireValue::BoolValue(true),
        class_of(value.tag()) == Some(PayloadClass::Empty) ==> value@.to_wire().value
            == WireValue::Invalid(0),
{
}

/// A value with a payload is made again from its tag and its payload as a
/// primitive.
pub proof fn lemma_primitive_round_trip(value: KeyParameterValue)
    ensures
        ParameterModel::from_primitive(value.tag(), value.payload()) == Ok::<
            ParameterModel,
            PrimitiveError,
        >(value@),
{
}

/// A primitive of another shape than the class of a listed tag with payload
/// is refused, and every primitive is refused for an unlisted tag.
pub proof fn lemma_primitive_refusals(tag: Tag, primitive: Payload)
    ensures
        class_of(tag) is None ==> ParameterModel::from_primitive(tag, primitive) == Err::<
            ParameterModel,
            PrimitiveError,
        >(PrimitiveError::UnknownTag),
        class_of(tag) matches Some(class) && !class.is_bare() && !class.admits(primitive)
            ==> ParameterModel::from_primitive(tag, primitive) == Err::<
            ParameterModel,
            PrimitiveError,
        >(PrimitiveError::TypeMismatch),
{
}

/// A value that went to the wire comes back from it unchanged.
pub proof fn lemma_wire_round_trip(value: KeyParameterValue)
    ensures
        ParameterModel::from_wire(value@.to_wire()) == value@,
{
}

/// A value that went to the store is read back from it unchanged.
pub proof fn lemma_value_survives_storage(value: KeyParameterValue)
    ensures
        ParameterModel::from_cell(value.tag(), value@.to_cell()) == Some(value@),
{
}

/// A cell that holds what is stored under a tag is read without error and
/// written back as it was.
pub proof fn lemma_cell_survives_reading(tag: Tag, cell: Cell)
    requires
        ParameterModel::stored_under(tag, cell),
    ensures
        ParameterModel::from_cell(tag, cell) is Some,
        ParameterModel::from_cell(tag, cell)->Some_0.to_cell() == cell,
{
}

/// An unlisted tag is read from the store as the invalid value, whatever the
/// cell holds.
pub proof fn lemma_unlisted_tag_reads_invalid(tag: Tag, cell: Cell)
    requires
        class_of(tag) is None,
    ensures
        ParameterModel::from_cell(tag, cell) == Some(ParameterModel::invalid()),
{
}

} // verus!
