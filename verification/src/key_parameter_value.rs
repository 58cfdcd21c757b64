//! The key parameter value: one variant for each listed tag, and its
//! conversions from and to the wire, the store and the primitives.

use vstd::prelude::*;
use vstd::std_specs::convert::FromSpecImpl;
use vstd::std_specs::convert::IntoSpec;
use crate::class::class_of;
use crate::class::Payload;
use crate::keymint::Algorithm;
use crate::keymint::BlockMode;
use crate::keymint::Digest;
use crate::keymint::EcCurve;
use crate::keymint::HardwareAuthenticatorType;
use crate::keymint::KeyOrigin;
use crate::keymint::KeyPurpose;
use crate::keymint::KmKeyParameter;
use crate::keymint::KmKeyParameterValue;
use crate::keymint::PaddingMode;
use crate::model::ParameterModel;
use crate::primitive::AssociatePrimitive;
use crate::primitive::Primitive;
use crate::primitive::PrimitiveError;
use crate::storage::read_blob;
use crate::storage::read_i32;
use crate::storage::read_i64;
use crate::storage::SqlValue;
use crate::storage::StorageError;
use crate::tag;
use crate::tag::name_of;
use crate::tag::Tag;

verus! {

/// The value of a key parameter. Each variant belongs to one listed tag and
/// carries the payload that the tag declares.
#[derive(Debug, PartialEq, Eq, PartialOrd, Ord)]
pub enum KeyParameterValue {
    /// Stands for a parameter that could not be recognised.
    Invalid,
    /// Set of purposes for which the key may be used.
    KeyPurpose(KeyPurpose),
    /// Cryptographic algorithm with which the key is used.
    Algorithm(Algorithm),
    /// Size of the key, in bits.
    KeySize(i32),
    /// Block cipher mode(s) with which the key may be used.
    BlockMode(BlockMode),
    /// Digest algorithms that may be used with the key to sign and verify.
    Digest(Digest),
    /// Digest algorithms that can be used for MGF in RSA-OAEP.
    RsaOaepMgfDigest(Digest),
    /// Padding modes that may be used with the key.
    PaddingMode(PaddingMode),
    /// The caller may provide a nonce for operations that need one.
    CallerNonce,
    /// Minimum length of MAC for HMAC keys and AES keys that support GCM mode.
    MinMacLength(i32),
    /// The elliptic curve.
    EcCurve(EcCurve),
    /// Value of the public exponent for an RSA key pair.
    RSAPublicExponent(i64),
    /// An attestation certificate for the key should contain a device-unique id.
    IncludeUniqueID,
    /// Only the boot loader can use the key.
    BootLoaderOnly,
    /// Once deleted, the key is permanently deleted and unusable.
    RollbackResistance,
    /// The key shall only be used during the early boot stage.
    EarlyBootOnly,
    /// The date and time at which the key becomes active.
    ActiveDateTime(i64),
    /// The date and time at which the key expires for signing and encryption.
    OriginationExpireDateTime(i64),
    /// The date and time at which the key expires for verification and decryption.
    UsageExpireDateTime(i64),
    /// Minimum amount of time that elapses between allowed operations.
    MinSecondsBetweenOps(i32),
    /// Maximum number of times that the key may be used between system reboots.
    MaxUsesPerBoot(i32),
    /// The number of times that a limited use key can be used.
    UsageCountLimit(i32),
    /// Id of the user that is permitted to use the key.
    UserID(i32),
    /// The key may only be used under a particular secure user authentication state.
    UserSecureID(i64),
    /// No authentication is required to use this key.
    NoAuthRequired,
    /// The types of user authenticators that may be used to authorize this key.
    HardwareAuthenticatorType(HardwareAuthenticatorType),
    /// The time in seconds for which the key is authorized for use, after user authentication.
    AuthTimeout(i32),
    /// The authentication timeout of the key expires when the device leaves the body of the user.
    AllowWhileOnBody,
    /// The key is unusable unless the user has given proof of physical presence.
    TrustedUserPresenceRequired,
    /// The key is unusable unless the user confirms the data to be signed.
    TrustedConfirmationRequired,
    /// The key may only be used when the device is unlocked.
    UnlockedDeviceRequired,
    /// Data that is necessary during all uses of the key.
    ApplicationID(Vec<u8>),
    /// Data that is necessary during all uses of the key.
    ApplicationData(Vec<u8>),
    /// The date and time the key was created.
    CreationDateTime(i64),
    /// Where the key was created, if known.
    KeyOrigin(KeyOrigin),
    /// The key used by verified boot to validate the operating system booted.
    RootOfTrust(Vec<u8>),
    /// System OS version with which the key may be used.
    OSVersion(i32),
    /// The system security patch level with which the key may be used.
    OSPatchLevel(i32),
    /// A unique, time-based identifier.
    UniqueID(Vec<u8>),
    /// A challenge value for key attestation.
    AttestationChallenge(Vec<u8>),
    /// The set of applications which may use a key, for key attestation.
    AttestationApplicationID(Vec<u8>),
    /// The brand name of the device, for key attestation.
    AttestationIdBrand(Vec<u8>),
    /// The device name of the device, for key attestation.
    AttestationIdDevice(Vec<u8>),
    /// The product name of the device, for key attestation.
    AttestationIdProduct(Vec<u8>),
    /// The serial number of the device, for key attestation.
    AttestationIdSerial(Vec<u8>),
    /// The primary IMEI of the device, for key attestation.
    AttestationIdIMEI(Vec<u8>),
    /// A second IMEI of the device, for key attestation.
    AttestationIdSecondIMEI(Vec<u8>),
    /// The MEIDs of all radios on the device, for key attestation.
    AttestationIdMEID(Vec<u8>),
    /// The manufacturer name of the device, for key attestation.
    AttestationIdManufacturer(Vec<u8>),
    /// The model name of the device, for key attestation.
    AttestationIdModel(Vec<u8>),
    /// The vendor image security patch level with which the key may be used.
    VendorPatchLevel(i32),
    /// The boot image security patch level with which the key may be used.
    BootPatchLevel(i32),
    /// Associated data for AES-GCM encryption or decryption.
    AssociatedData(Vec<u8>),
    /// A nonce or initialization vector for encryption or decryption.
    Nonce(Vec<u8>),
    /// The requested length of a MAC or GCM authentication tag, in bits.
    MacLength(i32),
    /// The device has been factory reset since the last unique id rotation.
    ResetSinceIdRotation,
    /// A cryptographic token proving that the user confirmed a signing request.
    ConfirmationToken(Vec<u8>),
    /// The serial number for certificate generation.
    CertificateSerial(Vec<u8>),
    /// The subject for certificate generation, a DER encoded X.509 name.
    CertificateSubject(Vec<u8>),
    /// The not-before date for certificate generation, in milliseconds.
    CertificateNotBefore(i64),
    /// The not-after date for certificate generation, in milliseconds.
    CertificateNotAfter(i64),
    /// The maximum boot level at which the key should function.
    MaxBootLevel(i32),
}

impl KeyParameterValue {
    /// The tag that the variant belongs to.
    pub open spec fn tag(self) -> Tag {
        match self {
            KeyParameterValue::Invalid => Tag(tag::INVALID),
            KeyParameterValue::KeyPurpose(_) => Tag(tag::PURPOSE),
            KeyParameterValue::Algorithm(_) => Tag(tag::ALGORITHM),
            KeyParameterValue::KeySize(_) => Tag(tag::KEY_SIZE),
            KeyParameterValue::BlockMode(_) => Tag(tag::BLOCK_MODE),
            KeyParameterValue::Digest(_) => Tag(tag::DIGEST),
            KeyParameterValue::RsaOaepMgfDigest(_) => Tag(tag::RSA_OAEP_MGF_DIGEST),
            KeyParameterValue::PaddingMode(_) => Tag(tag::PADDING),
            KeyParameterValue::CallerNonce => Tag(tag::CALLER_NONCE),
            KeyParameterValue::MinMacLength(_) => Tag(tag::MIN_MAC_LENGTH),
            KeyParameterValue::EcCurve(_) => Tag(tag::EC_CURVE),
            KeyParameterValue::RSAPublicExponent(_) => Tag(tag::RSA_PUBLIC_EXPONENT),
            KeyParameterValue::IncludeUniqueID => Tag(tag::INCLUDE_UNIQUE_ID),
            KeyParameterValue::BootLoaderOnly => Tag(tag::BOOTLOADER_ONLY),
            KeyParameterValue::RollbackResistance => Tag(tag::ROLLBACK_RESISTANCE),
            KeyParameterValue::EarlyBootOnly => Tag(tag::EARLY_BOOT_ONLY),
            KeyParameterValue::ActiveDateTime(_) => Tag(tag::ACTIVE_DATETIME),
            KeyParameterValue::OriginationExpireDateTime(_) => Tag(tag::ORIGINATION_EXPIRE_DATETIME),
            KeyParameterValue::UsageExpireDateTime(_) => Tag(tag::USAGE_EXPIRE_DATETIME),
            KeyParameterValue::MinSecondsBetweenOps(_) => Tag(tag::MIN_SECONDS_BETWEEN_OPS),
            KeyParameterValue::MaxUsesPerBoot(_) => Tag(tag::MAX_USES_PER_BOOT),
            KeyParameterValue::UsageCountLimit(_) => Tag(tag::USAGE_COUNT_LIMIT),
            KeyParameterValue::UserID(_) => Tag(tag::USER_ID),
            KeyParameterValue::UserSecureID(_) => Tag(tag::USER_SECURE_ID),
            KeyParameterValue::NoAuthRequired => Tag(tag::NO_AUTH_REQUIRED),
            KeyParameterValue::HardwareAuthenticatorType(_) => Tag(tag::USER_AUTH_TYPE),
            KeyParameterValue::AuthTimeout(_) => Tag(tag::AUTH_TIMEOUT),
            KeyParameterValue::AllowWhileOnBody => Tag(tag::ALLOW_WHILE_ON_BODY),
            KeyParameterValue::TrustedUserPresenceRequired => Tag(tag::TRUSTED_USER_PRESENCE_REQUIRED),
            KeyParameterValue::TrustedConfirmationRequired => Tag(tag::TRUSTED_CONFIRMATION_REQUIRED),
            KeyParameterValue::UnlockedDeviceRequired => Tag(tag::UNLOCKED_DEVICE_REQUIRED),
            KeyParameterValue::ApplicationID(_) => Tag(tag::APPLICATION_ID),
            KeyParameterValue::ApplicationData(_) => Tag(tag::APPLICATION_DATA),
            KeyParameterValue::CreationDateTime(_) => Tag(tag::CREATION_DATETIME),
            KeyParameterValue::KeyOrigin(_) => Tag(tag::ORIGIN),
            KeyParameterValue::RootOfTrust(_) => Tag(tag::ROOT_OF_TRUST),
            KeyParameterValue::OSVersion(_) => Tag(tag::OS_VERSION),
            KeyParameterValue::OSPatchLevel(_) => Tag(tag::OS_PATCHLEVEL),
            KeyParameterValue::UniqueID(_) => Tag(tag::UNIQUE_ID),
            KeyParameterValue::AttestationChallenge(_) => Tag(tag::ATTESTATION_CHALLENGE),
            KeyParameterValue::AttestationApplicationID(_) => Tag(tag::ATTESTATION_APPLICATION_ID),
            KeyParameterValue::AttestationIdBrand(_) => Tag(tag::ATTESTATION_ID_BRAND),
            KeyParameterValue::AttestationIdDevice(_) => Tag(tag::ATTESTATION_ID_DEVICE),
            KeyParameterValue::AttestationIdProduct(_) => Tag(tag::ATTESTATION_ID_PRODUCT),
            KeyParameterValue::AttestationIdSerial(_) => Tag(tag::ATTESTATION_ID_SERIAL),
            KeyParameterValue::AttestationIdIMEI(_) => Tag(tag::ATTESTATION_ID_IMEI),
            KeyParameterValue::AttestationIdSecondIMEI(_) => Tag(tag::ATTESTATION_ID_SECOND_IMEI),
            KeyParameterValue::AttestationIdMEID(_) => Tag(tag::ATTESTATION_ID_MEID),
            KeyParameterValue::AttestationIdManufacturer(_) => Tag(tag::ATTESTATION_ID_MANUFACTURER),
            KeyParameterValue::AttestationIdModel(_) => Tag(tag::ATTESTATION_ID_MODEL),
            KeyParameterValue::VendorPatchLevel(_) => Tag(tag::VENDOR_PATCHLEVEL),
            KeyParameterValue::BootPatchLevel(_) => Tag(tag::BOOT_PATCHLEVEL),
            KeyParameterValue::AssociatedData(_) => Tag(tag::ASSOCIATED_DATA),
            KeyParameterValue::Nonce(_) => Tag(tag::NONCE),
            KeyParameterValue::MacLength(_) => Tag(tag::MAC_LENGTH),
            KeyParameterValue::ResetSinceIdRotation => Tag(tag::RESET_SINCE_ID_ROTATION),
            KeyParameterValue::ConfirmationToken(_) => Tag(tag::CONFIRMATION_TOKEN),
            KeyParameterValue::CertificateSerial(_) => Tag(tag::CERTIFICATE_SERIAL),
            KeyParameterValue::CertificateSubject(_) => Tag(tag::CERTIFICATE_SUBJECT),
            KeyParameterValue::CertificateNotBefore(_) => Tag(tag::CERTIFICATE_NOT_BEFORE),
            KeyParameterValue::CertificateNotAfter(_) => Tag(tag::CERTIFICATE_NOT_AFTER),
            KeyParameterValue::MaxBootLevel(_) => Tag(tag::MAX_BOOT_LEVEL),
        }
    }

    /// The payload that the value carries.
    pub open spec fn payload(self) -> Payload {
        match self {
            KeyParameterValue::Invalid => Payload::Absent,
            KeyParameterValue::KeyPurpose(v) => Payload::Int32(v.0),
            KeyParameterValue::Algorithm(v) => Payload::Int32(v.0),
            KeyParameterValue::KeySize(v) => Payload::Int32(v),
            KeyParameterValue::BlockMode(v) => Payload::Int32(v.0),
            KeyParameterValue::Digest(v) => Payload::Int32(v.0),
            KeyParameterValue::RsaOaepMgfDigest(v) => Payload::Int32(v.0),
            KeyParameterValue::PaddingMode(v) => Payload::Int32(v.0),
            KeyParameterValue::CallerNonce => Payload::Absent,
            KeyParameterValue::MinMacLength(v) => Payload::Int32(v),
            KeyParameterValue::EcCurve(v) => Payload::Int32(v.0),
            KeyParameterValue::RSAPublicExponent(v) => Payload::Int64(v),
            KeyParameterValue::IncludeUniqueID => Payload::Absent,
            KeyParameterValue::BootLoaderOnly => Payload::Absent,
            KeyParameterValue::RollbackResistance => Payload::Absent,
            KeyParameterValue::EarlyBootOnly => Payload::Absent,
            KeyParameterValue::ActiveDateTime(v) => Payload::Int64(v),
            KeyParameterValue::OriginationExpireDateTime(v) => Payload::Int64(v),
            KeyParameterValue::UsageExpireDateTime(v) => Payload::Int64(v),
            KeyParameterValue::MinSecondsBetweenOps(v) => Payload::Int32(v),
            KeyParameterValue::MaxUsesPerBoot(v) => Payload::Int32(v),
            KeyParameterValue::UsageCountLimit(v) => Payload::Int32(v),
            KeyParameterValue::UserID(v) => Payload::Int32(v),
            KeyParameterValue::UserSecureID(v) => Payload::Int64(v),
            KeyParameterValue::NoAuthRequired => Payload::Absent,
            KeyParameterValue::HardwareAuthenticatorType(v) => Payload::Int32(v.0),
            KeyParameterValue::AuthTimeout(v) => Payload::Int32(v),
            KeyParameterValue::AllowWhileOnBody => Payload::Absent,
            KeyParameterValue::TrustedUserPresenceRequired => Payload::Absent,
            KeyParameterValue::TrustedConfirmationRequired => Payload::Absent,
            KeyParameterValue::UnlockedDeviceRequired => Payload::Absent,
            KeyParameterValue::ApplicationID(v) => Payload::Bytes(v@),
            KeyParameterValue::ApplicationData(v) => Payload::Bytes(v@),
            KeyParameterValue::CreationDateTime(v) => Payload::Int64(v),
            KeyParameterValue::KeyOrigin(v) => Payload::Int32(v.0),
            KeyParameterValue::RootOfTrust(v) => Payload::Bytes(v@),
            KeyParameterValue::OSVersion(v) => Payload::Int32(v),
            KeyParameterValue::OSPatchLevel(v) => Payload::Int32(v),
            KeyParameterValue::UniqueID(v) => Payload::Bytes(v@),
            KeyParameterValue::AttestationChallenge(v) => Payload::Bytes(v@),
            KeyParameterValue::AttestationApplicationID(v) => Payload::Bytes(v@),
            KeyParameterValue::AttestationIdBrand(v) => Payload::Bytes(v@),
            KeyParameterValue::AttestationIdDevice(v) => Payload::Bytes(v@),
            KeyParameterValue::AttestationIdProduct(v) => Payload::Bytes(v@),
            KeyParameterValue::AttestationIdSerial(v) => Payload::Bytes(v@),
            KeyParameterValue::AttestationIdIMEI(v) => Payload::Bytes(v@),
            KeyParameterValue::AttestationIdSecondIMEI(v) => Payload::Bytes(v@),
            KeyParameterValue::AttestationIdMEID(v) => Payload::Bytes(v@),
            KeyParameterValue::AttestationIdManufacturer(v) => Payload::Bytes(v@),
            KeyParameterValue::AttestationIdModel(v) => Payload::Bytes(v@),
            KeyParameterValue::VendorPatchLevel(v) => Payload::Int32(v),
            KeyParameterValue::BootPatchLevel(v) => Payload::Int32(v),
            KeyParameterValue::AssociatedData(v) => Payload::Bytes(v@),
            KeyParameterValue::Nonce(v) => Payload::Bytes(v@),
            KeyParameterValue::MacLength(v) => Payload::Int32(v),
            KeyParameterValue::ResetSinceIdRotation => Payload::Absent,
            KeyParameterValue::ConfirmationToken(v) => Payload::Bytes(v@),
            KeyParameterValue::CertificateSerial(v) => Payload::Bytes(v@),
            KeyParameterValue::CertificateSubject(v) => Payload::Bytes(v@),
            KeyParameterValue::CertificateNotBefore(v) => Payload::Int64(v),
            KeyParameterValue::CertificateNotAfter(v) => Payload::Int64(v),
            KeyParameterValue::MaxBootLevel(v) => Payload::Int32(v),
        }
    }

    /// The place of the variant in the declaration, counted from zero.
    pub open spec fn ordinal(self) -> nat {
        match self {
            KeyParameterValue::Invalid => 0,
            KeyParameterValue::KeyPurpose(_) => 1,
            KeyParameterValue::Algorithm(_) => 2,
            KeyParameterValue::KeySize(_) => 3,
            KeyParameterValue::BlockMode(_) => 4,
            KeyParameterValue::Digest(_) => 5,
            KeyParameterValue::RsaOaepMgfDigest(_) => 6,
            KeyParameterValue::PaddingMode(_) => 7,
            KeyParameterValue::CallerNonce => 8,
            KeyParameterValue::MinMacLength(_) => 9,
            KeyParameterValue::EcCurve(_) => 10,
            KeyParameterValue::RSAPublicExponent(_) => 11,
            KeyParameterValue::IncludeUniqueID => 12,
            KeyParameterValue::BootLoaderOnly => 13,
            KeyParameterValue::RollbackResistance => 14,
            KeyParameterValue::EarlyBootOnly => 15,
            KeyParameterValue::ActiveDateTime(_) => 16,
            KeyParameterValue::OriginationExpireDateTime(_) => 17,
            KeyParameterValue::UsageExpireDateTime(_) => 18,
            KeyParameterValue::MinSecondsBetweenOps(_) => 19,
            KeyParameterValue::MaxUsesPerBoot(_) => 20,
            KeyParameterValue::UsageCountLimit(_) => 21,
            KeyParameterValue::UserID(_) => 22,
            KeyParameterValue::UserSecureID(_) => 23,
            KeyParameterValue::NoAuthRequired => 24,
            KeyParameterValue::HardwareAuthenticatorType(_) => 25,
            KeyParameterValue::AuthTimeout(_) => 26,
            KeyParameterValue::AllowWhileOnBody => 27,
            KeyParameterValue::TrustedUserPresenceRequired => 28,
            KeyParameterValue::TrustedConfirmationRequired => 29,
            KeyParameterValue::UnlockedDeviceRequired => 30,
            KeyParameterValue::ApplicationID(_) => 31,
            KeyParameterValue::ApplicationData(_) => 32,
            KeyParameterValue::CreationDateTime(_) => 33,
            KeyParameterValue::KeyOrigin(_) => 34,
            KeyParameterValue::RootOfTrust(_) => 35,
            KeyParameterValue::OSVersion(_) => 36,
            KeyParameterValue::OSPatchLevel(_) => 37,
            KeyParameterValue::UniqueID(_) => 38,
            KeyParameterValue::AttestationChallenge(_) => 39,
            KeyParameterValue::AttestationApplicationID(_) => 40,
            KeyParameterValue::AttestationIdBrand(_) => 41,
            KeyParameterValue::AttestationIdDevice(_) => 42,
            KeyParameterValue::AttestationIdProduct(_) => 43,
            KeyParameterValue::AttestationIdSerial(_) => 44,
            KeyParameterValue::AttestationIdIMEI(_) => 45,
            KeyParameterValue::AttestationIdSecondIMEI(_) => 46,
            KeyParameterValue::AttestationIdMEID(_) => 47,
            KeyParameterValue::AttestationIdManufacturer(_) => 48,
            KeyParameterValue::AttestationIdModel(_) => 49,
            KeyParameterValue::VendorPatchLevel(_) => 50,
            KeyParameterValue::BootPatchLevel(_) => 51,
            KeyParameterValue::AssociatedData(_) => 52,
            KeyParameterValue::Nonce(_) => 53,
            KeyParameterValue::MacLength(_) => 54,
            KeyParameterValue::ResetSinceIdRotation => 55,
            KeyParameterValue::ConfirmationToken(_) => 56,
            KeyParameterValue::CertificateSerial(_) => 57,
            KeyParameterValue::CertificateSubject(_) => 58,
            KeyParameterValue::CertificateNotBefore(_) => 59,
            KeyParameterValue::CertificateNotAfter(_) => 60,
            KeyParameterValue::MaxBootLevel(_) => 61,
        }
    }
}

impl View for KeyParameterValue {
    type V = ParameterModel;

    open spec fn view(&self) -> ParameterModel {
        ParameterModel { tag: self.tag(), payload: self.payload() }
    }
}

impl KeyParameterValue {
    /// Returns the tag of the given instance.
    pub fn get_tag(&self) -> (r: Tag)
        ensures
            r == self.tag(),
    {
        match self {
            KeyParameterValue::Invalid => Tag(tag::INVALID),
            KeyParameterValue::KeyPurpose(_) => Tag(tag::PURPOSE),
            KeyParameterValue::Algorithm(_) => Tag(tag::ALGORITHM),
            KeyParameterValue::KeySize(_) => Tag(tag::KEY_SIZE),
            KeyParameterValue::BlockMode(_) => Tag(tag::BLOCK_MODE),
            KeyParameterValue::Digest(_) => Tag(tag::DIGEST),
            KeyParameterValue::RsaOaepMgfDigest(_) => Tag(tag::RSA_OAEP_MGF_DIGEST),
            KeyParameterValue::PaddingMode(_) => Tag(tag::PADDING),
            KeyParameterValue::CallerNonce => Tag(tag::CALLER_NONCE),
            KeyParameterValue::MinMacLength(_) => Tag(tag::MIN_MAC_LENGTH),
            KeyParameterValue::EcCurve(_) => Tag(tag::EC_CURVE),
            KeyParameterValue::RSAPublicExponent(_) => Tag(tag::RSA_PUBLIC_EXPONENT),
            KeyParameterValue::IncludeUniqueID => Tag(tag::INCLUDE_UNIQUE_ID),
            KeyParameterValue::BootLoaderOnly => Tag(tag::BOOTLOADER_ONLY),
            KeyParameterValue::RollbackResistance => Tag(tag::ROLLBACK_RESISTANCE),
            KeyParameterValue::EarlyBootOnly => Tag(tag::EARLY_BOOT_ONLY),
            KeyParameterValue::ActiveDateTime(_) => Tag(tag::ACTIVE_DATETIME),
            KeyParameterValue::OriginationExpireDateTime(_) => Tag(tag::ORIGINATION_EXPIRE_DATETIME),
            KeyParameterValue::UsageExpireDateTime(_) => Tag(tag::USAGE_EXPIRE_DATETIME),
            KeyParameterValue::MinSecondsBetweenOps(_) => Tag(tag::MIN_SECONDS_BETWEEN_OPS),
            KeyParameterValue::MaxUsesPerBoot(_) => Tag(tag::MAX_USES_PER_BOOT),
            KeyParameterValue::UsageCountLimit(_) => Tag(tag::USAGE_COUNT_LIMIT),
            KeyParameterValue::UserID(_) => Tag(tag::USER_ID),
            KeyParameterValue::UserSecureID(_) => Tag(tag::USER_SECURE_ID),
            KeyParameterValue::NoAuthRequired => Tag(tag::NO_AUTH_REQUIRED),
            KeyParameterValue::HardwareAuthenticatorType(_) => Tag(tag::USER_AUTH_TYPE),
            KeyParameterValue::AuthTimeout(_) => Tag(tag::AUTH_TIMEOUT),
            KeyParameterValue::AllowWhileOnBody => Tag(tag::ALLOW_WHILE_ON_BODY),
            KeyParameterValue::TrustedUserPresenceRequired => Tag(tag::TRUSTED_USER_PRESENCE_REQUIRED),
            KeyParameterValue::TrustedConfirmationRequired => Tag(tag::TRUSTED_CONFIRMATION_REQUIRED),
            KeyParameterValue::UnlockedDeviceRequired => Tag(tag::UNLOCKED_DEVICE_REQUIRED),
            KeyParameterValue::ApplicationID(_) => Tag(tag::APPLICATION_ID),
            KeyParameterValue::ApplicationData(_) => Tag(tag::APPLICATION_DATA),
            KeyParameterValue::CreationDateTime(_) => Tag(tag::CREATION_DATETIME),
            KeyParameterValue::KeyOrigin(_) => Tag(tag::ORIGIN),
            KeyParameterValue::RootOfTrust(_) => Tag(tag::ROOT_OF_TRUST),
            KeyParameterValue::OSVersion(_) => Tag(tag::OS_VERSION),
            KeyParameterValue::OSPatchLevel(_) => Tag(tag::OS_PATCHLEVEL),
            KeyParameterValue::UniqueID(_) => Tag(tag::UNIQUE_ID),
            KeyParameterValue::AttestationChallenge(_) => Tag(tag::ATTESTATION_CHALLENGE),
            KeyParameterValue::AttestationApplicationID(_) => Tag(tag::ATTESTATION_APPLICATION_ID),
            KeyParameterValue::AttestationIdBrand(_) => Tag(tag::ATTESTATION_ID_BRAND),
            KeyParameterValue::AttestationIdDevice(_) => Tag(tag::ATTESTATION_ID_DEVICE),
            KeyParameterValue::AttestationIdProduct(_) => Tag(tag::ATTESTATION_ID_PRODUCT),
            KeyParameterValue::AttestationIdSerial(_) => Tag(tag::ATTESTATION_ID_SERIAL),
            KeyParameterValue::AttestationIdIMEI(_) => Tag(tag::ATTESTATION_ID_IMEI),
            KeyParameterValue::AttestationIdSecondIMEI(_) => Tag(tag::ATTESTATION_ID_SECOND_IMEI),
            KeyParameterValue::AttestationIdMEID(_) => Tag(tag::ATTESTATION_ID_MEID),
            KeyParameterValue::AttestationIdManufacturer(_) => Tag(tag::ATTESTATION_ID_MANUFACTURER),
            KeyParameterValue::AttestationIdModel(_) => Tag(tag::ATTESTATION_ID_MODEL),
            KeyParameterValue::VendorPatchLevel(_) => Tag(tag::VENDOR_PATCHLEVEL),
            KeyParameterValue::BootPatchLevel(_) => Tag(tag::BOOT_PATCHLEVEL),
            KeyParameterValue::AssociatedData(_) => Tag(tag::ASSOCIATED_DATA),
            KeyParameterValue::Nonce(_) => Tag(tag::NONCE),
            KeyParameterValue::MacLength(_) => Tag(tag::MAC_LENGTH),
            KeyParameterValue::ResetSinceIdRotation => Tag(tag::RESET_SINCE_ID_ROTATION),
            KeyParameterValue::ConfirmationToken(_) => Tag(tag::CONFIRMATION_TOKEN),
            KeyParameterValue::CertificateSerial(_) => Tag(tag::CERTIFICATE_SERIAL),
            KeyParameterValue::CertificateSubject(_) => Tag(tag::CERTIFICATE_SUBJECT),
            KeyParameterValue::CertificateNotBefore(_) => Tag(tag::CERTIFICATE_NOT_BEFORE),
            KeyParameterValue::CertificateNotAfter(_) => Tag(tag::CERTIFICATE_NOT_AFTER),
            KeyParameterValue::MaxBootLevel(_) => Tag(tag::MAX_BOOT_LEVEL),
        }
    }

    /// Takes a tag and a cell of the store and makes the key parameter value
    /// that the cell holds. An unlisted tag gives `Invalid`. For a listed
    /// tag this fails exactly where the cell cannot be read as the type that
    /// the tag declares, and the error then carries the name of the tag.
    pub fn new_from_sql(tag: Tag, data: &SqlValue) -> (r: Result<Self, StorageError>)
        ensures
            match ParameterModel::from_cell(tag, data@) {
                Some(model) => r is Ok && r->Ok_0@ == model,
                None => r is Err && Some(r->Err_0.tag_name()@) == name_of(tag),
            },
    {
        Ok(
            match tag.0 {
                tag::INVALID => {
                    KeyParameterValue::Invalid
                },
                tag::PURPOSE => {
                    KeyParameterValue::KeyPurpose(<KeyPurpose>::from_primitive(read_i32(data, "PURPOSE")?))
                },
                tag::ALGORITHM => {
                    KeyParameterValue::Algorithm(<Algorithm>::from_primitive(read_i32(data, "ALGORITHM")?))
                },
                tag::KEY_SIZE => {
                    KeyParameterValue::KeySize(<i32>::from_primitive(read_i32(data, "KEY_SIZE")?))
                },
                tag::BLOCK_MODE => {
                    KeyParameterValue::BlockMode(<BlockMode>::from_primitive(read_i32(data, "BLOCK_MODE")?))
                },
                tag::DIGEST => {
                    KeyParameterValue::Digest(<Digest>::from_primitive(read_i32(data, "DIGEST")?))
                },
                tag::RSA_OAEP_MGF_DIGEST => {
                    KeyParameterValue::RsaOaepMgfDigest(<Digest>::from_primitive(read_i32(data, "RSA_OAEP_MGF_DIGEST")?))
                },
                tag::PADDING => {
                    KeyParameterValue::PaddingMode(<PaddingMode>::from_primitive(read_i32(data, "PADDING")?))
                },
                tag::CALLER_NONCE => {
                    KeyParameterValue::CallerNonce
                },
                tag::MIN_MAC_LENGTH => {
                    KeyParameterValue::MinMacLength(<i32>::from_primitive(read_i32(data, "MIN_MAC_LENGTH")?))
                },
                tag::EC_CURVE => {
                    KeyParameterValue::EcCurve(<EcCurve>::from_primitive(read_i32(data, "EC_CURVE")?))
                },
                tag::RSA_PUBLIC_EXPONENT => {
                    KeyParameterValue::RSAPublicExponent(<i64>::from_primitive(read_i64(data, "RSA_PUBLIC_EXPONENT")?))
                },
                tag::INCLUDE_UNIQUE_ID => {
                    KeyParameterValue::IncludeUniqueID
                },
                tag::BOOTLOADER_ONLY => {
                    KeyParameterValue::BootLoaderOnly
                },
                tag::ROLLBACK_RESISTANCE => {
                    KeyParameterValue::RollbackResistance
                },
                tag::EARLY_BOOT_ONLY => {
                    KeyParameterValue::EarlyBootOnly
                },
                tag::ACTIVE_DATETIME => {
                    KeyParameterValue::ActiveDateTime(<i64>::from_primitive(read_i64(data, "ACTIVE_DATETIME")?))
                },
                tag::ORIGINATION_EXPIRE_DATETIME => {
                    KeyParameterValue::OriginationExpireDateTime(<i64>::from_primitive(read_i64(data, "ORIGINATION_EXPIRE_DATETIME")?))
                },
                tag::USAGE_EXPIRE_DATETIME => {
                    KeyParameterValue::UsageExpireDateTime(<i64>::from_primitive(read_i64(data, "USAGE_EXPIRE_DATETIME")?))
                },
                tag::MIN_SECONDS_BETWEEN_OPS => {
                    KeyParameterValue::MinSecondsBetweenOps(<i32>::from_primitive(read_i32(data, "MIN_SECONDS_BETWEEN_OPS")?))
                },
                tag::MAX_USES_PER_BOOT => {
                    KeyParameterValue::MaxUsesPerBoot(<i32>::from_primitive(read_i32(data, "MAX_USES_PER_BOOT")?))
                },
                tag::USAGE_COUNT_LIMIT => {
                    KeyParameterValue::UsageCountLimit(<i32>::from_primitive(read_i32(data, "USAGE_COUNT_LIMIT")?))
                },
                tag::USER_ID => {
                    KeyParameterValue::UserID(<i32>::from_primitive(read_i32(data, "USER_ID")?))
                },
                tag::USER_SECURE_ID => {
                    KeyParameterValue::UserSecureID(<i64>::from_primitive(read_i64(data, "USER_SECURE_ID")?))
                },
                tag::NO_AUTH_REQUIRED => {
                    KeyParameterValue::NoAuthRequired
                },
                tag::USER_AUTH_TYPE => {
                    KeyParameterValue::HardwareAuthenticatorType(<HardwareAuthenticatorType>::from_primitive(read_i32(data, "USER_AUTH_TYPE")?))
                },
                tag::AUTH_TIMEOUT => {
                    KeyParameterValue::AuthTimeout(<i32>::from_primitive(read_i32(data, "AUTH_TIMEOUT")?))
                },
                tag::ALLOW_WHILE_ON_BODY => {
                    KeyParameterValue::AllowWhileOnBody
                },
                tag::TRUSTED_USER_PRESENCE_REQUIRED => {
                    KeyParameterValue::TrustedUserPresenceRequired
                },
                tag::TRUSTED_CONFIRMATION_REQUIRED => {
                    KeyParameterValue::TrustedConfirmationRequired
                },
                tag::UNLOCKED_DEVICE_REQUIRED => {
                    KeyParameterValue::UnlockedDeviceRequired
                },
                tag::APPLICATION_ID => {
                    KeyParameterValue::ApplicationID(<Vec<u8>>::from_primitive(read_blob(data, "APPLICATION_ID")?))
                },
                tag::APPLICATION_DATA => {
                    KeyParameterValue::ApplicationData(<Vec<u8>>::from_primitive(read_blob(data, "APPLICATION_DATA")?))
                },
                tag::CREATION_DATETIME => {
                    KeyParameterValue::CreationDateTime(<i64>::from_primitive(read_i64(data, "CREATION_DATETIME")?))
                },
                tag::ORIGIN => {
                    KeyParameterValue::KeyOrigin(<KeyOrigin>::from_primitive(read_i32(data, "ORIGIN")?))
                },
                tag::ROOT_OF_TRUST => {
                    KeyParameterValue::RootOfTrust(<Vec<u8>>::from_primitive(read_blob(data, "ROOT_OF_TRUST")?))
                },
                tag::OS_VERSION => {
                    KeyParameterValue::OSVersion(<i32>::from_primitive(read_i32(data, "OS_VERSION")?))
                },
                tag::OS_PATCHLEVEL => {
                    KeyParameterValue::OSPatchLevel(<i32>::from_primitive(read_i32(data, "OS_PATCHLEVEL")?))
                },
                tag::UNIQUE_ID => {
                    KeyParameterValue::UniqueID(<Vec<u8>>::from_primitive(read_blob(data, "UNIQUE_ID")?))
                },
                tag::ATTESTATION_CHALLENGE => {
                    KeyParameterValue::AttestationChallenge(<Vec<u8>>::from_primitive(read_blob(data, "ATTESTATION_CHALLENGE")?))
                },
                tag::ATTESTATION_APPLICATION_ID => {
                    KeyParameterValue::AttestationApplicationID(<Vec<u8>>::from_primitive(read_blob(data, "ATTESTATION_APPLICATION_ID")?))
                },
                tag::ATTESTATION_ID_BRAND => {
                    KeyParameterValue::AttestationIdBrand(<Vec<u8>>::from_primitive(read_blob(data, "ATTESTATION_ID_BRAND")?))
                },
                tag::ATTESTATION_ID_DEVICE => {
                    KeyParameterValue::AttestationIdDevice(<Vec<u8>>::from_primitive(read_blob(data, "ATTESTATION_ID_DEVICE")?))
                },
                tag::ATTESTATION_ID_PRODUCT => {
                    KeyParameterValue::AttestationIdProduct(<Vec<u8>>::from_primitive(read_blob(data, "ATTESTATION_ID_PRODUCT")?))
                },
                tag::ATTESTATION_ID_SERIAL => {
                    KeyParameterValue::AttestationIdSerial(<Vec<u8>>::from_primitive(read_blob(data, "ATTESTATION_ID_SERIAL")?))
                },
                tag::ATTESTATION_ID_IMEI => {
                    KeyParameterValue::AttestationIdIMEI(<Vec<u8>>::from_primitive(read_blob(data, "ATTESTATION_ID_IMEI")?))
                },
                tag::ATTESTATION_ID_SECOND_IMEI => {
                    KeyParameterValue::AttestationIdSecondIMEI(<Vec<u8>>::from_primitive(read_blob(data, "ATTESTATION_ID_SECOND_IMEI")?))
                },
                tag::ATTESTATION_ID_MEID => {
                    KeyParameterValue::AttestationIdMEID(<Vec<u8>>::from_primitive(read_blob(data, "ATTESTATION_ID_MEID")?))
                },
                tag::ATTESTATION_ID_MANUFACTURER => {
                    KeyParameterValue::AttestationIdManufacturer(<Vec<u8>>::from_primitive(read_blob(data, "ATTESTATION_ID_MANUFACTURER")?))
                },
                tag::ATTESTATION_ID_MODEL => {
                    KeyParameterValue::AttestationIdModel(<Vec<u8>>::from_primitive(read_blob(data, "ATTESTATION_ID_MODEL")?))
                },
                tag::VENDOR_PATCHLEVEL => {
                    KeyParameterValue::VendorPatchLevel(<i32>::from_primitive(read_i32(data, "VENDOR_PATCHLEVEL")?))
                },
                tag::BOOT_PATCHLEVEL => {
                    KeyParameterValue::BootPatchLevel(<i32>::from_primitive(read_i32(data, "BOOT_PATCHLEVEL")?))
                },
                tag::ASSOCIATED_DATA => {
                    KeyParameterValue::AssociatedData(<Vec<u8>>::from_primitive(read_blob(data, "ASSOCIATED_DATA")?))
                },
                tag::NONCE => {
                    KeyParameterValue::Nonce(<Vec<u8>>::from_primitive(read_blob(data, "NONCE")?))
                },
                tag::MAC_LENGTH => {
                    KeyParameterValue::MacLength(<i32>::from_primitive(read_i32(data, "MAC_LENGTH")?))
                },
                tag::RESET_SINCE_ID_ROTATION => {
                    KeyParameterValue::ResetSinceIdRotation
                },
                tag::CONFIRMATION_TOKEN => {
                    KeyParameterValue::ConfirmationToken(<Vec<u8>>::from_primitive(read_blob(data, "CONFIRMATION_TOKEN")?))
                },
                tag::CERTIFICATE_SERIAL => {
                    KeyParameterValue::CertificateSerial(<Vec<u8>>::from_primitive(read_blob(data, "CERTIFICATE_SERIAL")?))
                },
                tag::CERTIFICATE_SUBJECT => {
                    KeyParameterValue::CertificateSubject(<Vec<u8>>::from_primitive(read_blob(data, "CERTIFICATE_SUBJECT")?))
                },
                tag::CERTIFICATE_NOT_BEFORE => {
                    KeyParameterValue::CertificateNotBefore(<i64>::from_primitive(read_i64(data, "CERTIFICATE_NOT_BEFORE")?))
                },
                tag::CERTIFICATE_NOT_AFTER => {
                    KeyParameterValue::CertificateNotAfter(<i64>::from_primitive(read_i64(data, "CERTIFICATE_NOT_AFTER")?))
                },
                tag::MAX_BOOT_LEVEL => {
                    KeyParameterValue::MaxBootLevel(<i32>::from_primitive(read_i32(data, "MAX_BOOT_LEVEL")?))
                },
                _ => KeyParameterValue::Invalid,
            },
        )
    }

    /// Makes the key parameter value of a tag from a primitive. This fails
    /// with `UnknownTag` for an unlisted tag, and with `TypeMismatch` where
    /// the tag declares a payload and the primitive is not of its type.
    pub fn new_from_tag_primitive(tag: Tag, p: Primitive) -> (r: Result<Self, PrimitiveError>)
        ensures
            match ParameterModel::from_primitive(tag, p@) {
                Ok(model) => r is Ok && r->Ok_0@ == model,
                Err(e) => r == Err::<Self, PrimitiveError>(e),
            },
    {
        Ok(
            match tag.0 {
                tag::INVALID => KeyParameterValue::Invalid,
                tag::PURPOSE => KeyParameterValue::KeyPurpose(<KeyPurpose>::from_primitive(p.try_into()?)),
                tag::ALGORITHM => KeyParameterValue::Algorithm(<Algorithm>::from_primitive(p.try_into()?)),
                tag::KEY_SIZE => KeyParameterValue::KeySize(<i32>::from_primitive(p.try_into()?)),
                tag::BLOCK_MODE => KeyParameterValue::BlockMode(<BlockMode>::from_primitive(p.try_into()?)),
                tag::DIGEST => KeyParameterValue::Digest(<Digest>::from_primitive(p.try_into()?)),
                tag::RSA_OAEP_MGF_DIGEST => KeyParameterValue::RsaOaepMgfDigest(<Digest>::from_primitive(p.try_into()?)),
                tag::PADDING => KeyParameterValue::PaddingMode(<PaddingMode>::from_primitive(p.try_into()?)),
                tag::CALLER_NONCE => KeyParameterValue::CallerNonce,
                tag::MIN_MAC_LENGTH => KeyParameterValue::MinMacLength(<i32>::from_primitive(p.try_into()?)),
                tag::EC_CURVE => KeyParameterValue::EcCurve(<EcCurve>::from_primitive(p.try_into()?)),
                tag::RSA_PUBLIC_EXPONENT => KeyParameterValue::RSAPublicExponent(<i64>::from_primitive(p.try_into()?)),
                tag::INCLUDE_UNIQUE_ID => KeyParameterValue::IncludeUniqueID,
                tag::BOOTLOADER_ONLY => KeyParameterValue::BootLoaderOnly,
                tag::ROLLBACK_RESISTANCE => KeyParameterValue::RollbackResistance,
                tag::EARLY_BOOT_ONLY => KeyParameterValue::EarlyBootOnly,
                tag::ACTIVE_DATETIME => KeyParameterValue::ActiveDateTime(<i64>::from_primitive(p.try_into()?)),
                tag::ORIGINATION_EXPIRE_DATETIME => KeyParameterValue::OriginationExpireDateTime(<i64>::from_primitive(p.try_into()?)),
                tag::USAGE_EXPIRE_DATETIME => KeyParameterValue::UsageExpireDateTime(<i64>::from_primitive(p.try_into()?)),
                tag::MIN_SECONDS_BETWEEN_OPS => KeyParameterValue::MinSecondsBetweenOps(<i32>::from_primitive(p.try_into()?)),
                tag::MAX_USES_PER_BOOT => KeyParameterValue::MaxUsesPerBoot(<i32>::from_primitive(p.try_into()?)),
                tag::USAGE_COUNT_LIMIT => KeyParameterValue::UsageCountLimit(<i32>::from_primitive(p.try_into()?)),
                tag::USER_ID => KeyParameterValue::UserID(<i32>::from_primitive(p.try_into()?)),
                tag::USER_SECURE_ID => KeyParameterValue::UserSecureID(<i64>::from_primitive(p.try_into()?)),
                tag::NO_AUTH_REQUIRED => KeyParameterValue::NoAuthRequired,
                tag::USER_AUTH_TYPE => KeyParameterValue::HardwareAuthenticatorType(<HardwareAuthenticatorType>::from_primitive(p.try_into()?)),
                tag::AUTH_TIMEOUT => KeyParameterValue::AuthTimeout(<i32>::from_primitive(p.try_into()?)),
                tag::ALLOW_WHILE_ON_BODY => KeyParameterValue::AllowWhileOnBody,
                tag::TRUSTED_USER_PRESENCE_REQUIRED => KeyParameterValue::TrustedUserPresenceRequired,
                tag::TRUSTED_CONFIRMATION_REQUIRED => KeyParameterValue::TrustedConfirmationRequired,
                tag::UNLOCKED_DEVICE_REQUIRED => KeyParameterValue::UnlockedDeviceRequired,
                tag::APPLICATION_ID => KeyParameterValue::ApplicationID(<Vec<u8>>::from_primitive(p.try_into()?)),
                tag::APPLICATION_DATA => KeyParameterValue::ApplicationData(<Vec<u8>>::from_primitive(p.try_into()?)),
                tag::CREATION_DATETIME => KeyParameterValue::CreationDateTime(<i64>::from_primitive(p.try_into()?)),
                tag::ORIGIN => KeyParameterValue::KeyOrigin(<KeyOrigin>::from_primitive(p.try_into()?)),
                tag::ROOT_OF_TRUST => KeyParameterValue::RootOfTrust(<Vec<u8>>::from_primitive(p.try_into()?)),
                tag::OS_VERSION => KeyParameterValue::OSVersion(<i32>::from_primitive(p.try_into()?)),
                tag::OS_PATCHLEVEL => KeyParameterValue::OSPatchLevel(<i32>::from_primitive(p.try_into()?)),
                tag::UNIQUE_ID => KeyParameterValue::UniqueID(<Vec<u8>>::from_primitive(p.try_into()?)),
                tag::ATTESTATION_CHALLENGE => KeyParameterValue::AttestationChallenge(<Vec<u8>>::from_primitive(p.try_into()?)),
                tag::ATTESTATION_APPLICATION_ID => KeyParameterValue::AttestationApplicationID(<Vec<u8>>::from_primitive(p.try_into()?)),
                tag::ATTESTATION_ID_BRAND => KeyParameterValue::AttestationIdBrand(<Vec<u8>>::from_primitive(p.try_into()?)),
                tag::ATTESTATION_ID_DEVICE => KeyParameterValue::AttestationIdDevice(<Vec<u8>>::from_primitive(p.try_into()?)),
                tag::ATTESTATION_ID_PRODUCT => KeyParameterValue::AttestationIdProduct(<Vec<u8>>::from_primitive(p.try_into()?)),
                tag::ATTESTATION_ID_SERIAL => KeyParameterValue::AttestationIdSerial(<Vec<u8>>::from_primitive(p.try_into()?)),
                tag::ATTESTATION_ID_IMEI => KeyParameterValue::AttestationIdIMEI(<Vec<u8>>::from_primitive(p.try_into()?)),
                tag::ATTESTATION_ID_SECOND_IMEI => KeyParameterValue::AttestationIdSecondIMEI(<Vec<u8>>::from_primitive(p.try_into()?)),
                tag::ATTESTATION_ID_MEID => KeyParameterValue::AttestationIdMEID(<Vec<u8>>::from_primitive(p.try_into()?)),
                tag::ATTESTATION_ID_MANUFACTURER => KeyParameterValue::AttestationIdManufacturer(<Vec<u8>>::from_primitive(p.try_into()?)),
                tag::ATTESTATION_ID_MODEL => KeyParameterValue::AttestationIdModel(<Vec<u8>>::from_primitive(p.try_into()?)),
                tag::VENDOR_PATCHLEVEL => KeyParameterValue::VendorPatchLevel(<i32>::from_primitive(p.try_into()?)),
                tag::BOOT_PATCHLEVEL => KeyParameterValue::BootPatchLevel(<i32>::from_primitive(p.try_into()?)),
                tag::ASSOCIATED_DATA => KeyParameterValue::AssociatedData(<Vec<u8>>::from_primitive(p.try_into()?)),
                tag::NONCE => KeyParameterValue::Nonce(<Vec<u8>>::from_primitive(p.try_into()?)),
                tag::MAC_LENGTH => KeyParameterValue::MacLength(<i32>::from_primitive(p.try_into()?)),
                tag::RESET_SINCE_ID_ROTATION => KeyParameterValue::ResetSinceIdRotation,
                tag::CONFIRMATION_TOKEN => KeyParameterValue::ConfirmationToken(<Vec<u8>>::from_primitive(p.try_into()?)),
                tag::CERTIFICATE_SERIAL => KeyParameterValue::CertificateSerial(<Vec<u8>>::from_primitive(p.try_into()?)),
                tag::CERTIFICATE_SUBJECT => KeyParameterValue::CertificateSubject(<Vec<u8>>::from_primitive(p.try_into()?)),
                tag::CERTIFICATE_NOT_BEFORE => KeyParameterValue::CertificateNotBefore(<i64>::from_primitive(p.try_into()?)),
                tag::CERTIFICATE_NOT_AFTER => KeyParameterValue::CertificateNotAfter(<i64>::from_primitive(p.try_into()?)),
                tag::MAX_BOOT_LEVEL => KeyParameterValue::MaxBootLevel(<i32>::from_primitive(p.try_into()?)),
                _ => return Err(PrimitiveError::UnknownTag),
            },
        )
    }

    /// Makes the key parameter value of a tag from anything that converts
    /// into a primitive. The outcome is that of `new_from_tag_primitive` on
    /// the primitive that `v` converts into. Whatever that primitive is, an
    /// unlisted tag is refused, a tag without payload makes its value, and a
    /// value that is made has the tag.
    pub fn new_from_tag_primitive_pair<T: Into<Primitive>>(tag: Tag, v: T) -> (r: Result<
        Self,
        PrimitiveError,
    >)
        ensures
            T::obeys_into_spec() ==> match ParameterModel::from_primitive(tag, v.into_spec()@) {
                Ok(model) => r is Ok && r->Ok_0@ == model,
                Err(e) => r == Err::<Self, PrimitiveError>(e),
            },
            r == Err::<Self, PrimitiveError>(PrimitiveError::UnknownTag) <==> class_of(tag) is None,
            r matches Ok(value) ==> value.tag() == tag,
            class_of(tag) matches Some(class) && class.is_bare() ==> r is Ok && r->Ok_0@.payload
                is Absent,
    {
        let p: Primitive = v.into();
        Self::new_from_tag_primitive(tag, p)
    }

    /// The cell in which the value is stored: NULL for a variant without
    /// payload, the payload as an integer or a blob otherwise.
    pub fn to_sql(&self) -> (r: SqlValue)
        ensures
            r@ == self@.to_cell(),
    {
        match self {
            KeyParameterValue::Invalid => SqlValue::Null,
            KeyParameterValue::KeyPurpose(v) => SqlValue::Integer(v.to_primitive() as i64),
            KeyParameterValue::Algorithm(v) => SqlValue::Integer(v.to_primitive() as i64),
            KeyParameterValue::KeySize(v) => SqlValue::Integer(v.to_primitive() as i64),
            KeyParameterValue::BlockMode(v) => SqlValue::Integer(v.to_primitive() as i64),
            KeyParameterValue::Digest(v) => SqlValue::Integer(v.to_primitive() as i64),
            KeyParameterValue::RsaOaepMgfDigest(v) => SqlValue::Integer(v.to_primitive() as i64),
            KeyParameterValue::PaddingMode(v) => SqlValue::Integer(v.to_primitive() as i64),
            KeyParameterValue::CallerNonce => SqlValue::Null,
            KeyParameterValue::MinMacLength(v) => SqlValue::Integer(v.to_primitive() as i64),
            KeyParameterValue::EcCurve(v) => SqlValue::Integer(v.to_primitive() as i64),
            KeyParameterValue::RSAPublicExponent(v) => SqlValue::Integer(v.to_primitive()),
            KeyParameterValue::IncludeUniqueID => SqlValue::Null,
            KeyParameterValue::BootLoaderOnly => SqlValue::Null,
            KeyParameterValue::RollbackResistance => SqlValue::Null,
            KeyParameterValue::EarlyBootOnly => SqlValue::Null,
            KeyParameterValue::ActiveDateTime(v) => SqlValue::Integer(v.to_primitive()),
            KeyParameterValue::OriginationExpireDateTime(v) => SqlValue::Integer(v.to_primitive()),
            KeyParameterValue::UsageExpireDateTime(v) => SqlValue::Integer(v.to_primitive()),
            KeyParameterValue::MinSecondsBetweenOps(v) => SqlValue::Integer(v.to_primitive() as i64),
            KeyParameterValue::MaxUsesPerBoot(v) => SqlValue::Integer(v.to_primitive() as i64),
            KeyParameterValue::UsageCountLimit(v) => SqlValue::Integer(v.to_primitive() as i64),
            KeyParameterValue::UserID(v) => SqlValue::Integer(v.to_primitive() as i64),
            KeyParameterValue::UserSecureID(v) => SqlValue::Integer(v.to_primitive()),
            KeyParameterValue::NoAuthRequired => SqlValue::Null,
            KeyParameterValue::HardwareAuthenticatorType(v) => SqlValue::Integer(v.to_primitive() as i64),
            KeyParameterValue::AuthTimeout(v) => SqlValue::Integer(v.to_primitive() as i64),
            KeyParameterValue::AllowWhileOnBody => SqlValue::Null,
            KeyParameterValue::TrustedUserPresenceRequired => SqlValue::Null,
            KeyParameterValue::TrustedConfirmationRequired => SqlValue::Null,
            KeyParameterValue::UnlockedDeviceRequired => SqlValue::Null,
            KeyParameterValue::ApplicationID(v) => SqlValue::Blob(v.to_primitive()),
            KeyParameterValue::ApplicationData(v) => SqlValue::Blob(v.to_primitive()),
            KeyParameterValue::CreationDateTime(v) => SqlValue::Integer(v.to_primitive()),
            KeyParameterValue::KeyOrigin(v) => SqlValue::Integer(v.to_primitive() as i64),
            KeyParameterValue::RootOfTrust(v) => SqlValue::Blob(v.to_primitive()),
            KeyParameterValue::OSVersion(v) => SqlValue::Integer(v.to_primitive() as i64),
            KeyParameterValue::OSPatchLevel(v) => SqlValue::Integer(v.to_primitive() as i64),
            KeyParameterValue::UniqueID(v) => SqlValue::Blob(v.to_primitive()),
            KeyParameterValue::AttestationChallenge(v) => SqlValue::Blob(v.to_primitive()),
            KeyParameterValue::AttestationApplicationID(v) => SqlValue::Blob(v.to_primitive()),
            KeyParameterValue::AttestationIdBrand(v) => SqlValue::Blob(v.to_primitive()),
            KeyParameterValue::AttestationIdDevice(v) => SqlValue::Blob(v.to_primitive()),
            KeyParameterValue::AttestationIdProduct(v) => SqlValue::Blob(v.to_primitive()),
            KeyParameterValue::AttestationIdSerial(v) => SqlValue::Blob(v.to_primitive()),
            KeyParameterValue::AttestationIdIMEI(v) => SqlValue::Blob(v.to_primitive()),
            KeyParameterValue::AttestationIdSecondIMEI(v) => SqlValue::Blob(v.to_primitive()),
            KeyParameterValue::AttestationIdMEID(v) => SqlValue::Blob(v.to_primitive()),
            KeyParameterValue::AttestationIdManufacturer(v) => SqlValue::Blob(v.to_primitive()),
            KeyParameterValue::AttestationIdModel(v) => SqlValue::Blob(v.to_primitive()),
            KeyParameterValue::VendorPatchLevel(v) => SqlValue::Integer(v.to_primitive() as i64),
            KeyParameterValue::BootPatchLevel(v) => SqlValue::Integer(v.to_primitive() as i64),
            KeyParameterValue::AssociatedData(v) => SqlValue::Blob(v.to_primitive()),
            KeyParameterValue::Nonce(v) => SqlValue::Blob(v.to_primitive()),
            KeyParameterValue::MacLength(v) => SqlValue::Integer(v.to_primitive() as i64),
            KeyParameterValue::ResetSinceIdRotation => SqlValue::Null,
            KeyParameterValue::ConfirmationToken(v) => SqlValue::Blob(v.to_primitive()),
            KeyParameterValue::CertificateSerial(v) => SqlValue::Blob(v.to_primitive()),
            KeyParameterValue::CertificateSubject(v) => SqlValue::Blob(v.to_primitive()),
            KeyParameterValue::CertificateNotBefore(v) => SqlValue::Integer(v.to_primitive()),
            KeyParameterValue::CertificateNotAfter(v) => SqlValue::Integer(v.to_primitive()),
            KeyParameterValue::MaxBootLevel(v) => SqlValue::Integer(v.to_primitive() as i64),
        }
    }
}

impl Clone for KeyParameterValue {
    fn clone(&self) -> (r: Self)
        ensures
            r@ == self@,
            r.ordinal() == self.ordinal(),
    {
        match self {
            KeyParameterValue::Invalid => KeyParameterValue::Invalid,
            KeyParameterValue::KeyPurpose(v) => KeyParameterValue::KeyPurpose(*v),
            KeyParameterValue::Algorithm(v) => KeyParameterValue::Algorithm(*v),
            KeyParameterValue::KeySize(v) => KeyParameterValue::KeySize(*v),
            KeyParameterValue::BlockMode(v) => KeyParameterValue::BlockMode(*v),
            KeyParameterValue::Digest(v) => KeyParameterValue::Digest(*v),
            KeyParameterValue::RsaOaepMgfDigest(v) => KeyParameterValue::RsaOaepMgfDigest(*v),
            KeyParameterValue::PaddingMode(v) => KeyParameterValue::PaddingMode(*v),
            KeyParameterValue::CallerNonce => KeyParameterValue::CallerNonce,
            KeyParameterValue::MinMacLength(v) => KeyParameterValue::MinMacLength(*v),
            KeyParameterValue::EcCurve(v) => KeyParameterValue::EcCurve(*v),
            KeyParameterValue::RSAPublicExponent(v) => KeyParameterValue::RSAPublicExponent(*v),
            KeyParameterValue::IncludeUniqueID => KeyParameterValue::IncludeUniqueID,
            KeyParameterValue::BootLoaderOnly => KeyParameterValue::BootLoaderOnly,
            KeyParameterValue::RollbackResistance => KeyParameterValue::RollbackResistance,
            KeyParameterValue::EarlyBootOnly => KeyParameterValue::EarlyBootOnly,
            KeyParameterValue::ActiveDateTime(v) => KeyParameterValue::ActiveDateTime(*v),
            KeyParameterValue::OriginationExpireDateTime(v) => KeyParameterValue::OriginationExpireDateTime(*v),
            KeyParameterValue::UsageExpireDateTime(v) => KeyParameterValue::UsageExpireDateTime(*v),
            KeyParameterValue::MinSecondsBetweenOps(v) => KeyParameterValue::MinSecondsBetweenOps(*v),
            KeyParameterValue::MaxUsesPerBoot(v) => KeyParameterValue::MaxUsesPerBoot(*v),
            KeyParameterValue::UsageCountLimit(v) => KeyParameterValue::UsageCountLimit(*v),
            KeyParameterValue::UserID(v) => KeyParameterValue::UserID(*v),
            KeyParameterValue::UserSecureID(v) => KeyParameterValue::UserSecureID(*v),
            KeyParameterValue::NoAuthRequired => KeyParameterValue::NoAuthRequired,
            KeyParameterValue::HardwareAuthenticatorType(v) => KeyParameterValue::HardwareAuthenticatorType(*v),
            KeyParameterValue::AuthTimeout(v) => KeyParameterValue::AuthTimeout(*v),
            KeyParameterValue::AllowWhileOnBody => KeyParameterValue::AllowWhileOnBody,
            KeyParameterValue::TrustedUserPresenceRequired => KeyParameterValue::TrustedUserPresenceRequired,
            KeyParameterValue::TrustedConfirmationRequired => KeyParameterValue::TrustedConfirmationRequired,
            KeyParameterValue::UnlockedDeviceRequired => KeyParameterValue::UnlockedDeviceRequired,
            KeyParameterValue::ApplicationID(v) => KeyParameterValue::ApplicationID(v.to_primitive()),
            KeyParameterValue::ApplicationData(v) => KeyParameterValue::ApplicationData(v.to_primitive()),
            KeyParameterValue::CreationDateTime(v) => KeyParameterValue::CreationDateTime(*v),
            KeyParameterValue::KeyOrigin(v) => KeyParameterValue::KeyOrigin(*v),
            KeyParameterValue::RootOfTrust(v) => KeyParameterValue::RootOfTrust(v.to_primitive()),
            KeyParameterValue::OSVersion(v) => KeyParameterValue::OSVersion(*v),
            KeyParameterValue::OSPatchLevel(v) => KeyParameterValue::OSPatchLevel(*v),
            KeyParameterValue::UniqueID(v) => KeyParameterValue::UniqueID(v.to_primitive()),
            KeyParameterValue::AttestationChallenge(v) => KeyParameterValue::AttestationChallenge(v.to_primitive()),
            KeyParameterValue::AttestationApplicationID(v) => KeyParameterValue::AttestationApplicationID(v.to_primitive()),
            KeyParameterValue::AttestationIdBrand(v) => KeyParameterValue::AttestationIdBrand(v.to_primitive()),
            KeyParameterValue::AttestationIdDevice(v) => KeyParameterValue::AttestationIdDevice(v.to_primitive()),
            KeyParameterValue::AttestationIdProduct(v) => KeyParameterValue::AttestationIdProduct(v.to_primitive()),
            KeyParameterValue::AttestationIdSerial(v) => KeyParameterValue::AttestationIdSerial(v.to_primitive()),
            KeyParameterValue::AttestationIdIMEI(v) => KeyParameterValue::AttestationIdIMEI(v.to_primitive()),
            KeyParameterValue::AttestationIdSecondIMEI(v) => KeyParameterValue::AttestationIdSecondIMEI(v.to_primitive()),
            KeyParameterValue::AttestationIdMEID(v) => KeyParameterValue::AttestationIdMEID(v.to_primitive()),
            KeyParameterValue::AttestationIdManufacturer(v) => KeyParameterValue::AttestationIdManufacturer(v.to_primitive()),
            KeyParameterValue::AttestationIdModel(v) => KeyParameterValue::AttestationIdModel(v.to_primitive()),
            KeyParameterValue::VendorPatchLevel(v) => KeyParameterValue::VendorPatchLevel(*v),
            KeyParameterValue::BootPatchLevel(v) => KeyParameterValue::BootPatchLevel(*v),
            KeyParameterValue::AssociatedData(v) => KeyParameterValue::AssociatedData(v.to_primitive()),
            KeyParameterValue::Nonce(v) => KeyParameterValue::Nonce(v.to_primitive()),
            KeyParameterValue::MacLength(v) => KeyParameterValue::MacLength(*v),
            KeyParameterValue::ResetSinceIdRotation => KeyParameterValue::ResetSinceIdRotation,
            KeyParameterValue::ConfirmationToken(v) => KeyParameterValue::ConfirmationToken(v.to_primitive()),
            KeyParameterValue::CertificateSerial(v) => KeyParameterValue::CertificateSerial(v.to_primitive()),
            KeyParameterValue::CertificateSubject(v) => KeyParameterValue::CertificateSubject(v.to_primitive()),
            KeyParameterValue::CertificateNotBefore(v) => KeyParameterValue::CertificateNotBefore(*v),
            KeyParameterValue::CertificateNotAfter(v) => KeyParameterValue::CertificateNotAfter(*v),
            KeyParameterValue::MaxBootLevel(v) => KeyParameterValue::MaxBootLevel(*v),
        }
    }
}

impl From<KmKeyParameter> for KeyParameterValue {
    /// The key parameter value that a wire parameter stands for. Where the
    /// tag is unlisted, or the union has another field set than the one of
    /// the tag, the result is `Invalid`.
    fn from(kp: KmKeyParameter) -> (r: Self)
        ensures
            r@ == ParameterModel::from_wire(kp@),
    {
        match kp.tag.0 {
            tag::INVALID => match kp.value {
                KmKeyParameterValue::Invalid(_) => KeyParameterValue::Invalid,
                _ => KeyParameterValue::Invalid,
            },
            tag::PURPOSE => match kp.value {
                KmKeyParameterValue::KeyPurpose(v) => KeyParameterValue::KeyPurpose(v),
                _ => KeyParameterValue::Invalid,
            },
            tag::ALGORITHM => match kp.value {
                KmKeyParameterValue::Algorithm(v) => KeyParameterValue::Algorithm(v),
                _ => KeyParameterValue::Invalid,
            },
            tag::KEY_SIZE => match kp.value {
                KmKeyParameterValue::Integer(v) => KeyParameterValue::KeySize(v),
                _ => KeyParameterValue::Invalid,
            },
            tag::BLOCK_MODE => match kp.value {
                KmKeyParameterValue::BlockMode(v) => KeyParameterValue::BlockMode(v),
                _ => KeyParameterValue::Invalid,
            },
            tag::DIGEST => match kp.value {
                KmKeyParameterValue::Digest(v) => KeyParameterValue::Digest(v),
                _ => KeyParameterValue::Invalid,
            },
            tag::RSA_OAEP_MGF_DIGEST => match kp.value {
                KmKeyParameterValue::Digest(v) => KeyParameterValue::RsaOaepMgfDigest(v),
                _ => KeyParameterValue::Invalid,
            },
            tag::PADDING => match kp.value {
                KmKeyParameterValue::PaddingMode(v) => KeyParameterValue::PaddingMode(v),
                _ => KeyParameterValue::Invalid,
            },
            tag::CALLER_NONCE => match kp.value {
                KmKeyParameterValue::BoolValue(_) => KeyParameterValue::CallerNonce,
                _ => KeyParameterValue::Invalid,
            },
            tag::MIN_MAC_LENGTH => match kp.value {
                KmKeyParameterValue::Integer(v) => KeyParameterValue::MinMacLength(v),
                _ => KeyParameterValue::Invalid,
            },
            tag::EC_CURVE => match kp.value {
                KmKeyParameterValue::EcCurve(v) => KeyParameterValue::EcCurve(v),
                _ => KeyParameterValue::Invalid,
            },
            tag::RSA_PUBLIC_EXPONENT => match kp.value {
                KmKeyParameterValue::LongInteger(v) => KeyParameterValue::RSAPublicExponent(v),
                _ => KeyParameterValue::Invalid,
            },
            tag::INCLUDE_UNIQUE_ID => match kp.value {
                KmKeyParameterValue::BoolValue(_) => KeyParameterValue::IncludeUniqueID,
                _ => KeyParameterValue::Invalid,
            },
            tag::BOOTLOADER_ONLY => match kp.value {
                KmKeyParameterValue::BoolValue(_) => KeyParameterValue::BootLoaderOnly,
                _ => KeyParameterValue::Invalid,
            },
            tag::ROLLBACK_RESISTANCE => match kp.value {
                KmKeyParameterValue::BoolValue(_) => KeyParameterValue::RollbackResistance,
                _ => KeyParameterValue::Invalid,
            },
            tag::EARLY_BOOT_ONLY => match kp.value {
                KmKeyParameterValue::BoolValue(_) => KeyParameterValue::EarlyBootOnly,
                _ => KeyParameterValue::Invalid,
            },
            tag::ACTIVE_DATETIME => match kp.value {
                KmKeyParameterValue::DateTime(v) => KeyParameterValue::ActiveDateTime(v),
                _ => KeyParameterValue::Invalid,
            },
            tag::ORIGINATION_EXPIRE_DATETIME => match kp.value {
                KmKeyParameterValue::DateTime(v) => KeyParameterValue::OriginationExpireDateTime(v),
                _ => KeyParameterValue::Invalid,
            },
            tag::USAGE_EXPIRE_DATETIME => match kp.value {
                KmKeyParameterValue::DateTime(v) => KeyParameterValue::UsageExpireDateTime(v),
                _ => KeyParameterValue::Invalid,
            },
            tag::MIN_SECONDS_BETWEEN_OPS => match kp.value {
                KmKeyParameterValue::Integer(v) => KeyParameterValue::MinSecondsBetweenOps(v),
                _ => KeyParameterValue::Invalid,
            },
            tag::MAX_USES_PER_BOOT => match kp.value {
                KmKeyParameterValue::Integer(v) => KeyParameterValue::MaxUsesPerBoot(v),
                _ => KeyParameterValue::Invalid,
            },
            tag::USAGE_COUNT_LIMIT => match kp.value {
                KmKeyParameterValue::Integer(v) => KeyParameterValue::UsageCountLimit(v),
                _ => KeyParameterValue::Invalid,
            },
            tag::USER_ID => match kp.value {
                KmKeyParameterValue::Integer(v) => KeyParameterValue::UserID(v),
                _ => KeyParameterValue::Invalid,
            },
            tag::USER_SECURE_ID => match kp.value {
                KmKeyParameterValue::LongInteger(v) => KeyParameterValue::UserSecureID(v),
                _ => KeyParameterValue::Invalid,
            },
            tag::NO_AUTH_REQUIRED => match kp.value {
                KmKeyParameterValue::BoolValue(_) => KeyParameterValue::NoAuthRequired,
                _ => KeyParameterValue::Invalid,
            },
            tag::USER_AUTH_TYPE => match kp.value {
                KmKeyParameterValue::HardwareAuthenticatorType(v) => KeyParameterValue::HardwareAuthenticatorType(v),
                _ => KeyParameterValue::Invalid,
            },
            tag::AUTH_TIMEOUT => match kp.value {
                KmKeyParameterValue::Integer(v) => KeyParameterValue::AuthTimeout(v),
                _ => KeyParameterValue::Invalid,
            },
            tag::ALLOW_WHILE_ON_BODY => match kp.value {
                KmKeyParameterValue::BoolValue(_) => KeyParameterValue::AllowWhileOnBody,
                _ => KeyParameterValue::Invalid,
            },
            tag::TRUSTED_USER_PRESENCE_REQUIRED => match kp.value {
                KmKeyParameterValue::BoolValue(_) => KeyParameterValue::TrustedUserPresenceRequired,
                _ => KeyParameterValue::Invalid,
            },
            tag::TRUSTED_CONFIRMATION_REQUIRED => match kp.value {
                KmKeyParameterValue::BoolValue(_) => KeyParameterValue::TrustedConfirmationRequired,
                _ => KeyParameterValue::Invalid,
            },
            tag::UNLOCKED_DEVICE_REQUIRED => match kp.value {
                KmKeyParameterValue::BoolValue(_) => KeyParameterValue::UnlockedDeviceRequired,
                _ => KeyParameterValue::Invalid,
            },
            tag::APPLICATION_ID => match kp.value {
                KmKeyParameterValue::Blob(v) => KeyParameterValue::ApplicationID(v),
                _ => KeyParameterValue::Invalid,
            },
            tag::APPLICATION_DATA => match kp.value {
                KmKeyParameterValue::Blob(v) => KeyParameterValue::ApplicationData(v),
                _ => KeyParameterValue::Invalid,
            },
            tag::CREATION_DATETIME => match kp.value {
                KmKeyParameterValue::DateTime(v) => KeyParameterValue::CreationDateTime(v),
                _ => KeyParameterValue::Invalid,
            },
            tag::ORIGIN => match kp.value {
                KmKeyParameterValue::Origin(v) => KeyParameterValue::KeyOrigin(v),
                _ => KeyParameterValue::Invalid,
            },
            tag::ROOT_OF_TRUST => match kp.value {
                KmKeyParameterValue::Blob(v) => KeyParameterValue::RootOfTrust(v),
                _ => KeyParameterValue::Invalid,
            },
            tag::OS_VERSION => match kp.value {
                KmKeyParameterValue::Integer(v) => KeyParameterValue::OSVersion(v),
                _ => KeyParameterValue::Invalid,
            },
            tag::OS_PATCHLEVEL => match kp.value {
                KmKeyParameterValue::Integer(v) => KeyParameterValue::OSPatchLevel(v),
                _ => KeyParameterValue::Invalid,
            },
            tag::UNIQUE_ID => match kp.value {
                KmKeyParameterValue::Blob(v) => KeyParameterValue::UniqueID(v),
                _ => KeyParameterValue::Invalid,
            },
            tag::ATTESTATION_CHALLENGE => match kp.value {
                KmKeyParameterValue::Blob(v) => KeyParameterValue::AttestationChallenge(v),
                _ => KeyParameterValue::Invalid,
            },
            tag::ATTESTATION_APPLICATION_ID => match kp.value {
                KmKeyParameterValue::Blob(v) => KeyParameterValue::AttestationApplicationID(v),
                _ => KeyParameterValue::Invalid,
            },
            tag::ATTESTATION_ID_BRAND => match kp.value {
                KmKeyParameterValue::Blob(v) => KeyParameterValue::AttestationIdBrand(v),
                _ => KeyParameterValue::Invalid,
            },
            tag::ATTESTATION_ID_DEVICE => match kp.value {
                KmKeyParameterValue::Blob(v) => KeyParameterValue::AttestationIdDevice(v),
                _ => KeyParameterValue::Invalid,
            },
            tag::ATTESTATION_ID_PRODUCT => match kp.value {
                KmKeyParameterValue::Blob(v) => KeyParameterValue::AttestationIdProduct(v),
                _ => KeyParameterValue::Invalid,
            },
            tag::ATTESTATION_ID_SERIAL => match kp.value {
                KmKeyParameterValue::Blob(v) => KeyParameterValue::AttestationIdSerial(v),
                _ => KeyParameterValue::Invalid,
            },
            tag::ATTESTATION_ID_IMEI => match kp.value {
                KmKeyParameterValue::Blob(v) => KeyParameterValue::AttestationIdIMEI(v),
                _ => KeyParameterValue::Invalid,
            },
            tag::ATTESTATION_ID_SECOND_IMEI => match kp.value {
                KmKeyParameterValue::Blob(v) => KeyParameterValue::AttestationIdSecondIMEI(v),
                _ => KeyParameterValue::Invalid,
            },
            tag::ATTESTATION_ID_MEID => match kp.value {
                KmKeyParameterValue::Blob(v) => KeyParameterValue::AttestationIdMEID(v),
                _ => KeyParameterValue::Invalid,
            },
            tag::ATTESTATION_ID_MANUFACTURER => match kp.value {
                KmKeyParameterValue::Blob(v) => KeyParameterValue::AttestationIdManufacturer(v),
                _ => KeyParameterValue::Invalid,
            },
            tag::ATTESTATION_ID_MODEL => match kp.value {
                KmKeyParameterValue::Blob(v) => KeyParameterValue::AttestationIdModel(v),
                _ => KeyParameterValue::Invalid,
            },
            tag::VENDOR_PATCHLEVEL => match kp.value {
                KmKeyParameterValue::Integer(v) => KeyParameterValue::VendorPatchLevel(v),
                _ => KeyParameterValue::Invalid,
            },
            tag::BOOT_PATCHLEVEL => match kp.value {
                KmKeyParameterValue::Integer(v) => KeyParameterValue::BootPatchLevel(v),
                _ => KeyParameterValue::Invalid,
            },
            tag::ASSOCIATED_DATA => match kp.value {
                KmKeyParameterValue::Blob(v) => KeyParameterValue::AssociatedData(v),
                _ => KeyParameterValue::Invalid,
            },
            tag::NONCE => match kp.value {
                KmKeyParameterValue::Blob(v) => KeyParameterValue::Nonce(v),
                _ => KeyParameterValue::Invalid,
            },
            tag::MAC_LENGTH => match kp.value {
                KmKeyParameterValue::Integer(v) => KeyParameterValue::MacLength(v),
                _ => KeyParameterValue::Invalid,
            },
            tag::RESET_SINCE_ID_ROTATION => match kp.value {
                KmKeyParameterValue::BoolValue(_) => KeyParameterValue::ResetSinceIdRotation,
                _ => KeyParameterValue::Invalid,
            },
            tag::CONFIRMATION_TOKEN => match kp.value {
                KmKeyParameterValue::Blob(v) => KeyParameterValue::ConfirmationToken(v),
                _ => KeyParameterValue::Invalid,
            },
            tag::CERTIFICATE_SERIAL => match kp.value {
                KmKeyParameterValue::Blob(v) => KeyParameterValue::CertificateSerial(v),
                _ => KeyParameterValue::Invalid,
            },
            tag::CERTIFICATE_SUBJECT => match kp.value {
                KmKeyParameterValue::Blob(v) => KeyParameterValue::CertificateSubject(v),
                _ => KeyParameterValue::Invalid,
            },
            tag::CERTIFICATE_NOT_BEFORE => match kp.value {
                KmKeyParameterValue::DateTime(v) => KeyParameterValue::CertificateNotBefore(v),
                _ => KeyParameterValue::Invalid,
            },
            tag::CERTIFICATE_NOT_AFTER => match kp.value {
                KmKeyParameterValue::DateTime(v) => KeyParameterValue::CertificateNotAfter(v),
                _ => KeyParameterValue::Invalid,
            },
            tag::MAX_BOOT_LEVEL => match kp.value {
                KmKeyParameterValue::Integer(v) => KeyParameterValue::MaxBootLevel(v),
                _ => KeyParameterValue::Invalid,
            },
            _ => KeyParameterValue::Invalid,
        }
    }
}

/// The conversion is stated on the content of the two values, by the
/// `ensures` of `from`; no function from value to value is given for it.
impl FromSpecImpl<KmKeyParameter> for KeyParameterValue {
    open spec fn obeys_from_spec() -> bool {
        false
    }

    open spec fn from_spec(kp: KmKeyParameter) -> Self {
        arbitrary()
    }
}

impl From<&KmKeyParameter> for KeyParameterValue {
    /// As for an owned wire parameter, of which this takes a copy.
    fn from(kp: &KmKeyParameter) -> (r: Self)
        ensures
            r@ == ParameterModel::from_wire(kp@),
    {
        kp.clone().into()
    }
}

/// The conversion is stated on the content of the two values, by the
/// `ensures` of `from`; no function from value to value is given for it.
impl FromSpecImpl<&KmKeyParameter> for KeyParameterValue {
    open spec fn obeys_from_spec() -> bool {
        false
    }

    open spec fn from_spec(kp: &KmKeyParameter) -> Self {
        arbitrary()
    }
}

impl From<KeyParameterValue> for KmKeyParameter {
    /// The value on the wire, under its tag and in the field of the tag's
    /// class. A flag travels as `true` and `Invalid` as zero.
    fn from(x: KeyParameterValue) -> (r: Self)
        ensures
            r@ == x@.to_wire(),
    {
        match x {
            KeyParameterValue::Invalid => KmKeyParameter {
                tag: Tag(tag::INVALID),
                value: KmKeyParameterValue::Invalid(0),
            },
            KeyParameterValue::KeyPurpose(v) => KmKeyParameter {
                tag: Tag(tag::PURPOSE),
                value: KmKeyParameterValue::KeyPurpose(v),
            },
            KeyParameterValue::Algorithm(v) => KmKeyParameter {
                tag: Tag(tag::ALGORITHM),
                value: KmKeyParameterValue::Algorithm(v),
            },
            KeyParameterValue::KeySize(v) => KmKeyParameter {
                tag: Tag(tag::KEY_SIZE),
                value: KmKeyParameterValue::Integer(v),
            },
            KeyParameterValue::BlockMode(v) => KmKeyParameter {
                tag: Tag(tag::BLOCK_MODE),
                value: KmKeyParameterValue::BlockMode(v),
            },
            KeyParameterValue::Digest(v) => KmKeyParameter {
                tag: Tag(tag::DIGEST),
                value: KmKeyParameterValue::Digest(v),
            },
            KeyParameterValue::RsaOaepMgfDigest(v) => KmKeyParameter {
                tag: Tag(tag::RSA_OAEP_MGF_DIGEST),
                value: KmKeyParameterValue::Digest(v),
            },
            KeyParameterValue::PaddingMode(v) => KmKeyParameter {
                tag: Tag(tag::PADDING),
                value: KmKeyParameterValue::PaddingMode(v),
            },
            KeyParameterValue::CallerNonce => KmKeyParameter {
                tag: Tag(tag::CALLER_NONCE),
                value: KmKeyParameterValue::BoolValue(true),
            },
            KeyParameterValue::MinMacLength(v) => KmKeyParameter {
                tag: Tag(tag::MIN_MAC_LENGTH),
                value: KmKeyParameterValue::Integer(v),
            },
            KeyParameterValue::EcCurve(v) => KmKeyParameter {
                tag: Tag(tag::EC_CURVE),
                value: KmKeyParameterValue::EcCurve(v),
            },
            KeyParameterValue::RSAPublicExponent(v) => KmKeyParameter {
                tag: Tag(tag::RSA_PUBLIC_EXPONENT),
                value: KmKeyParameterValue::LongInteger(v),
            },
            KeyParameterValue::IncludeUniqueID => KmKeyParameter {
                tag: Tag(tag::INCLUDE_UNIQUE_ID),
                value: KmKeyParameterValue::BoolValue(true),
            },
            KeyParameterValue::BootLoaderOnly => KmKeyParameter {
                tag: Tag(tag::BOOTLOADER_ONLY),
                value: KmKeyParameterValue::BoolValue(true),
            },
            KeyParameterValue::RollbackResistance => KmKeyParameter {
                tag: Tag(tag::ROLLBACK_RESISTANCE),
                value: KmKeyParameterValue::BoolValue(true),
            },
            KeyParameterValue::EarlyBootOnly => KmKeyParameter {
                tag: Tag(tag::EARLY_BOOT_ONLY),
                value: KmKeyParameterValue::BoolValue(true),
            },
            KeyParameterValue::ActiveDateTime(v) => KmKeyParameter {
                tag: Tag(tag::ACTIVE_DATETIME),
                value: KmKeyParameterValue::DateTime(v),
            },
            KeyParameterValue::OriginationExpireDateTime(v) => KmKeyParameter {
                tag: Tag(tag::ORIGINATION_EXPIRE_DATETIME),
                value: KmKeyParameterValue::DateTime(v),
            },
            KeyParameterValue::UsageExpireDateTime(v) => KmKeyParameter {
                tag: Tag(tag::USAGE_EXPIRE_DATETIME),
                value: KmKeyParameterValue::DateTime(v),
            },
            KeyParameterValue::MinSecondsBetweenOps(v) => KmKeyParameter {
                tag: Tag(tag::MIN_SECONDS_BETWEEN_OPS),
                value: KmKeyParameterValue::Integer(v),
            },
            KeyParameterValue::MaxUsesPerBoot(v) => KmKeyParameter {
                tag: Tag(tag::MAX_USES_PER_BOOT),
                value: KmKeyParameterValue::Integer(v),
            },
            KeyParameterValue::UsageCountLimit(v) => KmKeyParameter {
                tag: Tag(tag::USAGE_COUNT_LIMIT),
                value: KmKeyParameterValue::Integer(v),
            },
            KeyParameterValue::UserID(v) => KmKeyParameter {
                tag: Tag(tag::USER_ID),
                value: KmKeyParameterValue::Integer(v),
            },
            KeyParameterValue::UserSecureID(v) => KmKeyParameter {
                tag: Tag(tag::USER_SECURE_ID),
                value: KmKeyParameterValue::LongInteger(v),
            },
            KeyParameterValue::NoAuthRequired => KmKeyParameter {
                tag: Tag(tag::NO_AUTH_REQUIRED),
                value: KmKeyParameterValue::BoolValue(true),
            },
            KeyParameterValue::HardwareAuthenticatorType(v) => KmKeyParameter {
                tag: Tag(tag::USER_AUTH_TYPE),
                value: KmKeyParameterValue::HardwareAuthenticatorType(v),
            },
            KeyParameterValue::AuthTimeout(v) => KmKeyParameter {
                tag: Tag(tag::AUTH_TIMEOUT),
                value: KmKeyParameterValue::Integer(v),
            },
            KeyParameterValue::AllowWhileOnBody => KmKeyParameter {
                tag: Tag(tag::ALLOW_WHILE_ON_BODY),
                value: KmKeyParameterValue::BoolValue(true),
            },
            KeyParameterValue::TrustedUserPresenceRequired => KmKeyParameter {
                tag: Tag(tag::TRUSTED_USER_PRESENCE_REQUIRED),
                value: KmKeyParameterValue::BoolValue(true),
            },
            KeyParameterValue::TrustedConfirmationRequired => KmKeyParameter {
                tag: Tag(tag::TRUSTED_CONFIRMATION_REQUIRED),
                value: KmKeyParameterValue::BoolValue(true),
            },
            KeyParameterValue::UnlockedDeviceRequired => KmKeyParameter {
                tag: Tag(tag::UNLOCKED_DEVICE_REQUIRED),
                value: KmKeyParameterValue::BoolValue(true),
            },
            KeyParameterValue::ApplicationID(v) => KmKeyParameter {
                tag: Tag(tag::APPLICATION_ID),
                value: KmKeyParameterValue::Blob(v),
            },
            KeyParameterValue::ApplicationData(v) => KmKeyParameter {
                tag: Tag(tag::APPLICATION_DATA),
                value: KmKeyParameterValue::Blob(v),
            },
            KeyParameterValue::CreationDateTime(v) => KmKeyParameter {
                tag: Tag(tag::CREATION_DATETIME),
                value: KmKeyParameterValue::DateTime(v),
            },
            KeyParameterValue::KeyOrigin(v) => KmKeyParameter {
                tag: Tag(tag::ORIGIN),
                value: KmKeyParameterValue::Origin(v),
            },
            KeyParameterValue::RootOfTrust(v) => KmKeyParameter {
                tag: Tag(tag::ROOT_OF_TRUST),
                value: KmKeyParameterValue::Blob(v),
            },
            KeyParameterValue::OSVersion(v) => KmKeyParameter {
                tag: Tag(tag::OS_VERSION),
                value: KmKeyParameterValue::Integer(v),
            },
            KeyParameterValue::OSPatchLevel(v) => KmKeyParameter {
                tag: Tag(tag::OS_PATCHLEVEL),
                value: KmKeyParameterValue::Integer(v),
            },
            KeyParameterValue::UniqueID(v) => KmKeyParameter {
                tag: Tag(tag::UNIQUE_ID),
                value: KmKeyParameterValue::Blob(v),
            },
            KeyParameterValue::AttestationChallenge(v) => KmKeyParameter {
                tag: Tag(tag::ATTESTATION_CHALLENGE),
                value: KmKeyParameterValue::Blob(v),
            },
            KeyParameterValue::AttestationApplicationID(v) => KmKeyParameter {
                tag: Tag(tag::ATTESTATION_APPLICATION_ID),
                value: KmKeyParameterValue::Blob(v),
            },
            KeyParameterValue::AttestationIdBrand(v) => KmKeyParameter {
                tag: Tag(tag::ATTESTATION_ID_BRAND),
                value: KmKeyParameterValue::Blob(v),
            },
            KeyParameterValue::AttestationIdDevice(v) => KmKeyParameter {
                tag: Tag(tag::ATTESTATION_ID_DEVICE),
                value: KmKeyParameterValue::Blob(v),
            },
            KeyParameterValue::AttestationIdProduct(v) => KmKeyParameter {
                tag: Tag(tag::ATTESTATION_ID_PRODUCT),
                value: KmKeyParameterValue::Blob(v),
            },
            KeyParameterValue::AttestationIdSerial(v) => KmKeyParameter {
                tag: Tag(tag::ATTESTATION_ID_SERIAL),
                value: KmKeyParameterValue::Blob(v),
            },
            KeyParameterValue::AttestationIdIMEI(v) => KmKeyParameter {
                tag: Tag(tag::ATTESTATION_ID_IMEI),
                value: KmKeyParameterValue::Blob(v),
            },
            KeyParameterValue::AttestationIdSecondIMEI(v) => KmKeyParameter {
                tag: Tag(tag::ATTESTATION_ID_SECOND_IMEI),
                value: KmKeyParameterValue::Blob(v),
            },
            KeyParameterValue::AttestationIdMEID(v) => KmKeyParameter {
                tag: Tag(tag::ATTESTATION_ID_MEID),
                value: KmKeyParameterValue::Blob(v),
            },
            KeyParameterValue::AttestationIdManufacturer(v) => KmKeyParameter {
                tag: Tag(tag::ATTESTATION_ID_MANUFACTURER),
                value: KmKeyParameterValue::Blob(v),
            },
            KeyParameterValue::AttestationIdModel(v) => KmKeyParameter {
                tag: Tag(tag::ATTESTATION_ID_MODEL),
                value: KmKeyParameterValue::Blob(v),
            },
            KeyParameterValue::VendorPatchLevel(v) => KmKeyParameter {
                tag: Tag(tag::VENDOR_PATCHLEVEL),
                value: KmKeyParameterValue::Integer(v),
            },
            KeyParameterValue::BootPatchLevel(v) => KmKeyParameter {
                tag: Tag(tag::BOOT_PATCHLEVEL),
                value: KmKeyParameterValue::Integer(v),
            },
            KeyParameterValue::AssociatedData(v) => KmKeyParameter {
                tag: Tag(tag::ASSOCIATED_DATA),
                value: KmKeyParameterValue::Blob(v),
            },
            KeyParameterValue::Nonce(v) => KmKeyParameter {
                tag: Tag(tag::NONCE),
                value: KmKeyParameterValue::Blob(v),
            },
            KeyParameterValue::MacLength(v) => KmKeyParameter {
                tag: Tag(tag::MAC_LENGTH),
                value: KmKeyParameterValue::Integer(v),
            },
            KeyParameterValue::ResetSinceIdRotation => KmKeyParameter {
                tag: Tag(tag::RESET_SINCE_ID_ROTATION),
                value: KmKeyParameterValue::BoolValue(true),
            },
            KeyParameterValue::ConfirmationToken(v) => KmKeyParameter {
                tag: Tag(tag::CONFIRMATION_TOKEN),
                value: KmKeyParameterValue::Blob(v),
            },
            KeyParameterValue::CertificateSerial(v) => KmKeyParameter {
                tag: Tag(tag::CERTIFICATE_SERIAL),
                value: KmKeyParameterValue::Blob(v),
            },
            KeyParameterValue::CertificateSubject(v) => KmKeyParameter {
                tag: Tag(tag::CERTIFICATE_SUBJECT),
                value: KmKeyParameterValue::Blob(v),
            },
            KeyParameterValue::CertificateNotBefore(v) => KmKeyParameter {
                tag: Tag(tag::CERTIFICATE_NOT_BEFORE),
                value: KmKeyParameterValue::DateTime(v),
            },
            KeyParameterValue::CertificateNotAfter(v) => KmKeyParameter {
                tag: Tag(tag::CERTIFICATE_NOT_AFTER),
                value: KmKeyParameterValue::DateTime(v),
            },
            KeyParameterValue::MaxBootLevel(v) => KmKeyParameter {
                tag: Tag(tag::MAX_BOOT_LEVEL),
                value: KmKeyParameterValue::Integer(v),
            },
        }
    }
}

/// The conversion is stated on the content of the two values, by the
/// `ensures` of `from`; no function from value to value is given for it.
impl FromSpecImpl<KeyParameterValue> for KmKeyParameter {
    open spec fn obeys_from_spec() -> bool {
        false
    }

    open spec fn from_spec(x: KeyParameterValue) -> Self {
        arbitrary()
    }
}

} // verus!
