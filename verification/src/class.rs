//! The table of tags: which class of payload each listed tag declares.
//!
//! Every conversion of the crate is stated against this table. A class fixes
//! both the shape of the payload that a parameter of the tag carries and the
//! field of the wire union in which the payload travels.

use vstd::prelude::*;
use crate::keymint::Field;
use crate::tag;
use crate::tag::Tag;

verus! {

/// What a parameter carries besides its tag, with the concrete type of the
/// payload erased: nothing, a 32-bit integer, a 64-bit integer or bytes.
pub enum Payload {
    /// No payload: the presence of the parameter is all it says.
    Absent,
    /// A 32-bit integer, or a value of one of the 32-bit enumerations.
    Int32(i32),
    /// A 64-bit integer or a point in time.
    Int64(i64),
    /// A sequence of bytes.
    Bytes(Seq<u8>),
}

/// The class of payload that a tag declares.
#[derive(Clone, Copy, Debug, PartialEq, Eq, Hash, Structural)]
pub enum PayloadClass {
    /// No payload and no meaning: the class of the invalid tag alone.
    Empty,
    /// No payload: a flag that holds when the parameter is present.
    Flag,
    /// A 32-bit integer.
    Int32,
    /// A 64-bit integer.
    Int64,
    /// A point in time, as a 64-bit integer.
    DateTime,
    /// A sequence of bytes.
    Bytes,
    /// An algorithm.
    Algorithm,
    /// A block mode.
    BlockMode,
    /// A padding mode.
    PaddingMode,
    /// A digest.
    Digest,
    /// An elliptic curve.
    EcCurve,
    /// A key origin.
    KeyOrigin,
    /// A key purpose.
    KeyPurpose,
    /// A type of hardware authenticator.
    HardwareAuthenticatorType,
}

impl PayloadClass {
    /// Whether a payload has the shape that this class declares.
    pub open spec fn admits(self, payload: Payload) -> bool {
        match self {
            PayloadClass::Empty | PayloadClass::Flag => payload is Absent,
            PayloadClass::Int64 | PayloadClass::DateTime => payload is Int64,
            PayloadClass::Bytes => payload is Bytes,
            _ => payload is Int32,
        }
    }

    /// Whether parameters of this class carry no payload.
    pub open spec fn is_bare(self) -> bool {
        self is Empty || self is Flag
    }

    /// The field of the wire union in which a payload of this class travels.
    pub open spec fn spec_field(&self) -> Field {
        match *self {
            PayloadClass::Empty => Field::Invalid,
            PayloadClass::Flag => Field::BoolValue,
            PayloadClass::Int32 => Field::Integer,
            PayloadClass::Int64 => Field::LongInteger,
            PayloadClass::DateTime => Field::DateTime,
            PayloadClass::Bytes => Field::Blob,
            PayloadClass::Algorithm => Field::Algorithm,
            PayloadClass::BlockMode => Field::BlockMode,
            PayloadClass::PaddingMode => Field::PaddingMode,
            PayloadClass::Digest => Field::Digest,
            PayloadClass::EcCurve => Field::EcCurve,
            PayloadClass::KeyOrigin => Field::Origin,
            PayloadClass::KeyPurpose => Field::KeyPurpose,
            PayloadClass::HardwareAuthenticatorType => Field::HardwareAuthenticatorType,
        }
    }

    /// The field of the wire union in which a payload of this class travels.
    #[verifier::when_used_as_spec(spec_field)]
    pub fn field(&self) -> (r: Field)
        ensures
            r == self.spec_field(),
    {
        match self {
            PayloadClass::Empty => Field::Invalid,
            PayloadClass::Flag => Field::BoolValue,
            PayloadClass::Int32 => Field::Integer,
            PayloadClass::Int64 => Field::LongInteger,
            PayloadClass::DateTime => Field::DateTime,
            PayloadClass::Bytes => Field::Blob,
            PayloadClass::Algorithm => Field::Algorithm,
            PayloadClass::BlockMode => Field::BlockMode,
            PayloadClass::PaddingMode => Field::PaddingMode,
            PayloadClass::Digest => Field::Digest,
            PayloadClass::EcCurve => Field::EcCurve,
            PayloadClass::KeyOrigin => Field::Origin,
            PayloadClass::KeyPurpose => Field::KeyPurpose,
            PayloadClass::HardwareAuthenticatorType => Field::HardwareAuthenticatorType,
        }
    }
}

/// The table: the class that a tag declares, or `None` for a tag that is not
/// listed.
pub open spec fn class_of(tag: Tag) -> Option<PayloadClass> {
    match tag.0 {
        tag::INVALID => Some(PayloadClass::Empty),
        tag::PURPOSE => Some(PayloadClass::KeyPurpose),
        tag::ALGORITHM => Some(PayloadClass::Algorithm),
        tag::KEY_SIZE => Some(PayloadClass::Int32),
        tag::BLOCK_MODE => Some(PayloadClass::BlockMode),
        tag::DIGEST => Some(PayloadClass::Digest),
        tag::RSA_OAEP_MGF_DIGEST => Some(PayloadClass::Digest),
        tag::PADDING => Some(PayloadClass::PaddingMode),
        tag::CALLER_NONCE => Some(PayloadClass::Flag),
        tag::MIN_MAC_LENGTH => Some(PayloadClass::Int32),
        tag::EC_CURVE => Some(PayloadClass::EcCurve),
        tag::RSA_PUBLIC_EXPONENT => Some(PayloadClass::Int64),
        tag::INCLUDE_UNIQUE_ID => Some(PayloadClass::Flag),
        tag::BOOTLOADER_ONLY => Some(PayloadClass::Flag),
        tag::ROLLBACK_RESISTANCE => Some(PayloadClass::Flag),
        tag::EARLY_BOOT_ONLY => Some(PayloadClass::Flag),
        tag::ACTIVE_DATETIME => Some(PayloadClass::DateTime),
        tag::ORIGINATION_EXPIRE_DATETIME => Some(PayloadClass::DateTime),
        tag::USAGE_EXPIRE_DATETIME => Some(PayloadClass::DateTime),
        tag::MIN_SECONDS_BETWEEN_OPS => Some(PayloadClass::Int32),
        tag::MAX_USES_PER_BOOT => Some(PayloadClass::Int32),
        tag::USAGE_COUNT_LIMIT => Some(PayloadClass::Int32),
        tag::USER_ID => Some(PayloadClass::Int32),
        tag::USER_SECURE_ID => Some(PayloadClass::Int64),
        tag::NO_AUTH_REQUIRED => Some(PayloadClass::Flag),
        tag::USER_AUTH_TYPE => Some(PayloadClass::HardwareAuthenticatorType),
        tag::AUTH_TIMEOUT => Some(PayloadClass::Int32),
        tag::ALLOW_WHILE_ON_BODY => Some(PayloadClass::Flag),
        tag::TRUSTED_USER_PRESENCE_REQUIRED => Some(PayloadClass::Flag),
        tag::TRUSTED_CONFIRMATION_REQUIRED => Some(PayloadClass::Flag),
        tag::UNLOCKED_DEVICE_REQUIRED => Some(PayloadClass::Flag),
        tag::APPLICATION_ID => Some(PayloadClass::Bytes),
        tag::APPLICATION_DATA => Some(PayloadClass::Bytes),
        tag::CREATION_DATETIME => Some(PayloadClass::DateTime),
        tag::ORIGIN => Some(PayloadClass::KeyOrigin),
        tag::ROOT_OF_TRUST => Some(PayloadClass::Bytes),
        tag::OS_VERSION => Some(PayloadClass::Int32),
        tag::OS_PATCHLEVEL => Some(PayloadClass::Int32),
        tag::UNIQUE_ID => Some(PayloadClass::Bytes),
        tag::ATTESTATION_CHALLENGE => Some(PayloadClass::Bytes),
        tag::ATTESTATION_APPLICATION_ID => Some(PayloadClass::Bytes),
        tag::ATTESTATION_ID_BRAND => Some(PayloadClass::Bytes),
        tag::ATTESTATION_ID_DEVICE => Some(PayloadClass::Bytes),
        tag::ATTESTATION_ID_PRODUCT => Some(PayloadClass::Bytes),
        tag::ATTESTATION_ID_SERIAL => Some(PayloadClass::Bytes),
        tag::ATTESTATION_ID_IMEI => Some(PayloadClass::Bytes),
        tag::ATTESTATION_ID_SECOND_IMEI => Some(PayloadClass::Bytes),
        tag::ATTESTATION_ID_MEID => Some(PayloadClass::Bytes),
        tag::ATTESTATION_ID_MANUFACTURER => Some(PayloadClass::Bytes),
        tag::ATTESTATION_ID_MODEL => Some(PayloadClass::Bytes),
        tag::VENDOR_PATCHLEVEL => Some(PayloadClass::Int32),
        tag::BOOT_PATCHLEVEL => Some(PayloadClass::Int32),
        tag::ASSOCIATED_DATA => Some(PayloadClass::Bytes),
        tag::NONCE => Some(PayloadClass::Bytes),
        tag::MAC_LENGTH => Some(PayloadClass::Int32),
        tag::RESET_SINCE_ID_ROTATION => Some(PayloadClass::Flag),
        tag::CONFIRMATION_TOKEN => Some(PayloadClass::Bytes),
        tag::CERTIFICATE_SERIAL => Some(PayloadClass::Bytes),
        tag::CERTIFICATE_SUBJECT => Some(PayloadClass::Bytes),
        tag::CERTIFICATE_NOT_BEFORE => Some(PayloadClass::DateTime),
        tag::CERTIFICATE_NOT_AFTER => Some(PayloadClass::DateTime),
        tag::MAX_BOOT_LEVEL => Some(PayloadClass::Int32),
        _ => None,
    }
}

impl Tag {
    /// The class of payload that this tag declares, or `None` for a tag that
    /// is not listed.
    pub fn payload_class(&self) -> (r: Option<PayloadClass>)
        ensures
            r == class_of(*self),
    {
        match self.0 {
            tag::INVALID => Some(PayloadClass::Empty),
            tag::PURPOSE => Some(PayloadClass::KeyPurpose),
            tag::ALGORITHM => Some(PayloadClass::Algorithm),
            tag::KEY_SIZE => Some(PayloadClass::Int32),
            tag::BLOCK_MODE => Some(PayloadClass::BlockMode),
            tag::DIGEST => Some(PayloadClass::Digest),
            tag::RSA_OAEP_MGF_DIGEST => Some(PayloadClass::Digest),
            tag::PADDING => Some(PayloadClass::PaddingMode),
            tag::CALLER_NONCE => Some(PayloadClass::Flag),
            tag::MIN_MAC_LENGTH => Some(PayloadClass::Int32),
            tag::EC_CURVE => Some(PayloadClass::EcCurve),
            tag::RSA_PUBLIC_EXPONENT => Some(PayloadClass::Int64),
            tag::INCLUDE_UNIQUE_ID => Some(PayloadClass::Flag),
            tag::BOOTLOADER_ONLY => Some(PayloadClass::Flag),
            tag::ROLLBACK_RESISTANCE => Some(PayloadClass::Flag),
            tag::EARLY_BOOT_ONLY => Some(PayloadClass::Flag),
            tag::ACTIVE_DATETIME => Some(PayloadClass::DateTime),
            tag::ORIGINATION_EXPIRE_DATETIME => Some(PayloadClass::DateTime),
            tag::USAGE_EXPIRE_DATETIME => Some(PayloadClass::DateTime),
            tag::MIN_SECONDS_BETWEEN_OPS => Some(PayloadClass::Int32),
            tag::MAX_USES_PER_BOOT => Some(PayloadClass::Int32),
            tag::USAGE_COUNT_LIMIT => Some(PayloadClass::Int32),
            tag::USER_ID => Some(PayloadClass::Int32),
            tag::USER_SECURE_ID => Some(PayloadClass::Int64),
            tag::NO_AUTH_REQUIRED => Some(PayloadClass::Flag),
            tag::USER_AUTH_TYPE => Some(PayloadClass::HardwareAuthenticatorType),
            tag::AUTH_TIMEOUT => Some(PayloadClass::Int32),
            tag::ALLOW_WHILE_ON_BODY => Some(PayloadClass::Flag),
            tag::TRUSTED_USER_PRESENCE_REQUIRED => Some(PayloadClass::Flag),
            tag::TRUSTED_CONFIRMATION_REQUIRED => Some(PayloadClass::Flag),
            tag::UNLOCKED_DEVICE_REQUIRED => Some(PayloadClass::Flag),
            tag::APPLICATION_ID => Some(PayloadClass::Bytes),
            tag::APPLICATION_DATA => Some(PayloadClass::Bytes),
            tag::CREATION_DATETIME => Some(PayloadClass::DateTime),
            tag::ORIGIN => Some(PayloadClass::KeyOrigin),
            tag::ROOT_OF_TRUST => Some(PayloadClass::Bytes),
            tag::OS_VERSION => Some(PayloadClass::Int32),
            tag::OS_PATCHLEVEL => Some(PayloadClass::Int32),
            tag::UNIQUE_ID => Some(PayloadClass::Bytes),
            tag::ATTESTATION_CHALLENGE => Some(PayloadClass::Bytes),
            tag::ATTESTATION_APPLICATION_ID => Some(PayloadClass::Bytes),
            tag::ATTESTATION_ID_BRAND => Some(PayloadClass::Bytes),
            tag::ATTESTATION_ID_DEVICE => Some(PayloadClass::Bytes),
            tag::ATTESTATION_ID_PRODUCT => Some(PayloadClass::Bytes),
            tag::ATTESTATION_ID_SERIAL => Some(PayloadClass::Bytes),
            tag::ATTESTATION_ID_IMEI => Some(PayloadClass::Bytes),
            tag::ATTESTATION_ID_SECOND_IMEI => Some(PayloadClass::Bytes),
            tag::ATTESTATION_ID_MEID => Some(PayloadClass::Bytes),
            tag::ATTESTATION_ID_MANUFACTURER => Some(PayloadClass::Bytes),
            tag::ATTESTATION_ID_MODEL => Some(PayloadClass::Bytes),
            tag::VENDOR_PATCHLEVEL => Some(PayloadClass::Int32),
            tag::BOOT_PATCHLEVEL => Some(PayloadClass::Int32),
            tag::ASSOCIATED_DATA => Some(PayloadClass::Bytes),
            tag::NONCE => Some(PayloadClass::Bytes),
            tag::MAC_LENGTH => Some(PayloadClass::Int32),
            tag::RESET_SINCE_ID_ROTATION => Some(PayloadClass::Flag),
            tag::CONFIRMATION_TOKEN => Some(PayloadClass::Bytes),
            tag::CERTIFICATE_SERIAL => Some(PayloadClass::Bytes),
            tag::CERTIFICATE_SUBJECT => Some(PayloadClass::Bytes),
            tag::CERTIFICATE_NOT_BEFORE => Some(PayloadClass::DateTime),
            tag::CERTIFICATE_NOT_AFTER => Some(PayloadClass::DateTime),
            tag::MAX_BOOT_LEVEL => Some(PayloadClass::Int32),
            _ => None,
        }
    }
}

} // verus!
