//! Tags: the identifiers that say what a key parameter means.
//!
//! A tag is a 32-bit code. Its upper four bits name the type of value the
//! key-management interface attaches to it, the lower bits number the tag
//! within the interface. This module lists the codes of the tags that have a
//! typed parameter, and the name of each.

use vstd::prelude::*;

verus! {

/// Identifies what a key parameter means.
///
/// Any 32-bit code is a tag; only the codes listed in this module have a
/// typed parameter. The others may still be met in stored data or on the
/// wire, written by another revision of the interface.
#[derive(Clone, Copy, Debug, PartialEq, Eq, PartialOrd, Ord, Hash, Structural)]
pub struct Tag(pub i32);

/// Stands for a parameter that could not be recognised.
pub const INVALID: i32 = 0;

/// Set of purposes for which the key may be used.
pub const PURPOSE: i32 = 536870913;

/// Cryptographic algorithm with which the key is used.
pub const ALGORITHM: i32 = 268435458;

/// Size of the key, in bits.
pub const KEY_SIZE: i32 = 805306371;

/// Block cipher mode(s) with which the key may be used.
pub const BLOCK_MODE: i32 = 536870916;

/// Digest algorithms that may be used with the key to sign and verify.
pub const DIGEST: i32 = 536870917;

/// Digest algorithms that can be used for MGF in RSA-OAEP.
pub const RSA_OAEP_MGF_DIGEST: i32 = 536871115;

/// Padding modes that may be used with the key.
pub const PADDING: i32 = 536870918;

/// The caller may provide a nonce for operations that need one.
pub const CALLER_NONCE: i32 = 1879048199;

/// Minimum length of MAC for HMAC keys and AES keys that support GCM mode.
pub const MIN_MAC_LENGTH: i32 = 805306376;

/// The elliptic curve.
pub const EC_CURVE: i32 = 268435466;

/// Value of the public exponent for an RSA key pair.
pub const RSA_PUBLIC_EXPONENT: i32 = 1342177480;

/// An attestation certificate for the key should contain a device-unique id.
pub const INCLUDE_UNIQUE_ID: i32 = 1879048394;

/// Only the boot loader can use the key.
pub const BOOTLOADER_ONLY: i32 = 1879048494;

/// Once deleted, the key is permanently deleted and unusable.
pub const ROLLBACK_RESISTANCE: i32 = 1879048495;

/// The key shall only be used during the early boot stage.
pub const EARLY_BOOT_ONLY: i32 = 1879048497;

/// The date and time at which the key becomes active.
pub const ACTIVE_DATETIME: i32 = 1610613136;

/// The date and time at which the key expires for signing and encryption.
pub const ORIGINATION_EXPIRE_DATETIME: i32 = 1610613137;

/// The date and time at which the key expires for verification and decryption.
pub const USAGE_EXPIRE_DATETIME: i32 = 1610613138;

/// Minimum amount of time that elapses between allowed operations.
pub const MIN_SECONDS_BETWEEN_OPS: i32 = 805306771;

/// Maximum number of times that the key may be used between system reboots.
pub const MAX_USES_PER_BOOT: i32 = 805306772;

/// The number of times that a limited use key can be used.
pub const USAGE_COUNT_LIMIT: i32 = 805306773;

/// Id of the user that is permitted to use the key.
pub const USER_ID: i32 = 805306869;

/// The key may only be used under a particular secure user authentication state.
pub const USER_SECURE_ID: i32 = -1610612234;

/// No authentication is required to use this key.
pub const NO_AUTH_REQUIRED: i32 = 1879048695;

/// The types of user authenticators that may be used to authorize this key.
pub const USER_AUTH_TYPE: i32 = 268435960;

/// The time in seconds for which the key is authorized for use, after user authentication.
pub const AUTH_TIMEOUT: i32 = 805306873;

/// The authentication timeout of the key expires when the device leaves the body of the user.
pub const ALLOW_WHILE_ON_BODY: i32 = 1879048698;

/// The key is unusable unless the user has given proof of physical presence.
pub const TRUSTED_USER_PRESENCE_REQUIRED: i32 = 1879048699;

/// The key is unusable unless the user confirms the data to be signed.
pub const TRUSTED_CONFIRMATION_REQUIRED: i32 = 1879048700;

/// The key may only be used when the device is unlocked.
pub const UNLOCKED_DEVICE_REQUIRED: i32 = 1879048701;

/// Data that is necessary during all uses of the key.
pub const APPLICATION_ID: i32 = -1879047591;

/// Data that is necessary during all uses of the key.
pub const APPLICATION_DATA: i32 = -1879047492;

/// The date and time the key was created.
pub const CREATION_DATETIME: i32 = 1610613437;

/// Where the key was created, if known.
pub const ORIGIN: i32 = 268436158;

/// The key used by verified boot to validate the operating system booted.
pub const ROOT_OF_TRUST: i32 = -1879047488;

/// System OS version with which the key may be used.
pub const OS_VERSION: i32 = 805307073;

/// The system security patch level with which the key may be used.
pub const OS_PATCHLEVEL: i32 = 805307074;

/// A unique, time-based identifier.
pub const UNIQUE_ID: i32 = -1879047485;

/// A challenge value for key attestation.
pub const ATTESTATION_CHALLENGE: i32 = -1879047484;

/// The set of applications which may use a key, for key attestation.
pub const ATTESTATION_APPLICATION_ID: i32 = -1879047483;

/// The brand name of the device, for key attestation.
pub const ATTESTATION_ID_BRAND: i32 = -1879047482;

/// The device name of the device, for key attestation.
pub const ATTESTATION_ID_DEVICE: i32 = -1879047481;

/// The product name of the device, for key attestation.
pub const ATTESTATION_ID_PRODUCT: i32 = -1879047480;

/// The serial number of the device, for key attestation.
pub const ATTESTATION_ID_SERIAL: i32 = -1879047479;

/// The primary IMEI of the device, for key attestation.
pub const ATTESTATION_ID_IMEI: i32 = -1879047478;

/// A second IMEI of the device, for key attestation.
pub const ATTESTATION_ID_SECOND_IMEI: i32 = -1879047469;

/// The MEIDs of all radios on the device, for key attestation.
pub const ATTESTATION_ID_MEID: i32 = -1879047477;

/// The manufacturer name of the device, for key attestation.
pub const ATTESTATION_ID_MANUFACTURER: i32 = -1879047476;

/// The model name of the device, for key attestation.
pub const ATTESTATION_ID_MODEL: i32 = -1879047475;

/// The vendor image security patch level with which the key may be used.
pub const VENDOR_PATCHLEVEL: i32 = 805307086;

/// The boot image security patch level with which the key may be used.
pub const BOOT_PATCHLEVEL: i32 = 805307087;

/// Associated data for AES-GCM encryption or decryption.
pub const ASSOCIATED_DATA: i32 = -1879047192;

/// A nonce or initialization vector for encryption or decryption.
pub const NONCE: i32 = -1879047191;

/// The requested length of a MAC or GCM authentication tag, in bits.
pub const MAC_LENGTH: i32 = 805307371;

/// The device has been factory reset since the last unique id rotation.
pub const RESET_SINCE_ID_ROTATION: i32 = 1879049196;

/// A cryptographic token proving that the user confirmed a signing request.
pub const CONFIRMATION_TOKEN: i32 = -1879047187;

/// The serial number for certificate generation.
pub const CERTIFICATE_SERIAL: i32 = -2147482642;

/// The subject for certificate generation, a DER encoded X.509 name.
pub const CERTIFICATE_SUBJECT: i32 = -1879047185;

/// The not-before date for certificate generation, in milliseconds.
pub const CERTIFICATE_NOT_BEFORE: i32 = 1610613744;

/// The not-after date for certificate generation, in milliseconds.
pub const CERTIFICATE_NOT_AFTER: i32 = 1610613745;

/// The maximum boot level at which the key should function.
pub const MAX_BOOT_LEVEL: i32 = 805307378;

/// The name of the tag with the given code, if the code is listed.
pub open spec fn name_of(tag: Tag) -> Option<Seq<char>> {
    match tag.0 {
        INVALID => Some("INVALID"@),
        PURPOSE => Some("PURPOSE"@),
        ALGORITHM => Some("ALGORITHM"@),
        KEY_SIZE => Some("KEY_SIZE"@),
        BLOCK_MODE => Some("BLOCK_MODE"@),
        DIGEST => Some("DIGEST"@),
        RSA_OAEP_MGF_DIGEST => Some("RSA_OAEP_MGF_DIGEST"@),
        PADDING => Some("PADDING"@),
        CALLER_NONCE => Some("CALLER_NONCE"@),
        MIN_MAC_LENGTH => Some("MIN_MAC_LENGTH"@),
        EC_CURVE => Some("EC_CURVE"@),
        RSA_PUBLIC_EXPONENT => Some("RSA_PUBLIC_EXPONENT"@),
        INCLUDE_UNIQUE_ID => Some("INCLUDE_UNIQUE_ID"@),
        BOOTLOADER_ONLY => Some("BOOTLOADER_ONLY"@),
        ROLLBACK_RESISTANCE => Some("ROLLBACK_RESISTANCE"@),
        EARLY_BOOT_ONLY => Some("EARLY_BOOT_ONLY"@),
        ACTIVE_DATETIME => Some("ACTIVE_DATETIME"@),
        ORIGINATION_EXPIRE_DATETIME => Some("ORIGINATION_EXPIRE_DATETIME"@),
        USAGE_EXPIRE_DATETIME => Some("USAGE_EXPIRE_DATETIME"@),
        MIN_SECONDS_BETWEEN_OPS => Some("MIN_SECONDS_BETWEEN_OPS"@),
        MAX_USES_PER_BOOT => Some("MAX_USES_PER_BOOT"@),
        USAGE_COUNT_LIMIT => Some("USAGE_COUNT_LIMIT"@),
        USER_ID => Some("USER_ID"@),
        USER_SECURE_ID => Some("USER_SECURE_ID"@),
        NO_AUTH_REQUIRED => Some("NO_AUTH_REQUIRED"@),
        USER_AUTH_TYPE => Some("USER_AUTH_TYPE"@),
        AUTH_TIMEOUT => Some("AUTH_TIMEOUT"@),
        ALLOW_WHILE_ON_BODY => Some("ALLOW_WHILE_ON_BODY"@),
        TRUSTED_USER_PRESENCE_REQUIRED => Some("TRUSTED_USER_PRESENCE_REQUIRED"@),
        TRUSTED_CONFIRMATION_REQUIRED => Some("TRUSTED_CONFIRMATION_REQUIRED"@),
        UNLOCKED_DEVICE_REQUIRED => Some("UNLOCKED_DEVICE_REQUIRED"@),
        APPLICATION_ID => Some("APPLICATION_ID"@),
        APPLICATION_DATA => Some("APPLICATION_DATA"@),
        CREATION_DATETIME => Some("CREATION_DATETIME"@),
        ORIGIN => Some("ORIGIN"@),
        ROOT_OF_TRUST => Some("ROOT_OF_TRUST"@),
        OS_VERSION => Some("OS_VERSION"@),
        OS_PATCHLEVEL => Some("OS_PATCHLEVEL"@),
        UNIQUE_ID => Some("UNIQUE_ID"@),
        ATTESTATION_CHALLENGE => Some("ATTESTATION_CHALLENGE"@),
        ATTESTATION_APPLICATION_ID => Some("ATTESTATION_APPLICATION_ID"@),
        ATTESTATION_ID_BRAND => Some("ATTESTATION_ID_BRAND"@),
        ATTESTATION_ID_DEVICE => Some("ATTESTATION_ID_DEVICE"@),
        ATTESTATION_ID_PRODUCT => Some("ATTESTATION_ID_PRODUCT"@),
        ATTESTATION_ID_SERIAL => Some("ATTESTATION_ID_SERIAL"@),
        ATTESTATION_ID_IMEI => Some("ATTESTATION_ID_IMEI"@),
        ATTESTATION_ID_SECOND_IMEI => Some("ATTESTATION_ID_SECOND_IMEI"@),
        ATTESTATION_ID_MEID => Some("ATTESTATION_ID_MEID"@),
        ATTESTATION_ID_MANUFACTURER => Some("ATTESTATION_ID_MANUFACTURER"@),
        ATTESTATION_ID_MODEL => Some("ATTESTATION_ID_MODEL"@),
        VENDOR_PATCHLEVEL => Some("VENDOR_PATCHLEVEL"@),
        BOOT_PATCHLEVEL => Some("BOOT_PATCHLEVEL"@),
        ASSOCIATED_DATA => Some("ASSOCIATED_DATA"@),
        NONCE => Some("NONCE"@),
        MAC_LENGTH => Some("MAC_LENGTH"@),
        RESET_SINCE_ID_ROTATION => Some("RESET_SINCE_ID_ROTATION"@),
        CONFIRMATION_TOKEN => Some("CONFIRMATION_TOKEN"@),
        CERTIFICATE_SERIAL => Some("CERTIFICATE_SERIAL"@),
        CERTIFICATE_SUBJECT => Some("CERTIFICATE_SUBJECT"@),
        CERTIFICATE_NOT_BEFORE => Some("CERTIFICATE_NOT_BEFORE"@),
        CERTIFICATE_NOT_AFTER => Some("CERTIFICATE_NOT_AFTER"@),
        MAX_BOOT_LEVEL => Some("MAX_BOOT_LEVEL"@),
        _ => None,
    }
}

impl Tag {
    /// Whether this tag is one of the listed ones.
    pub open spec fn is_known(self) -> bool {
        name_of(self) is Some
    }

    /// The name of this tag, or `None` for a code that is not listed.
    pub fn name(&self) -> (r: Option<&'static str>)
        ensures
            r is Some <==> self.is_known(),
            r matches Some(s) ==> name_of(*self) == Some(s@),
    {
        match self.0 {
            INVALID => Some("INVALID"),
            PURPOSE => Some("PURPOSE"),
            ALGORITHM => Some("ALGORITHM"),
            KEY_SIZE => Some("KEY_SIZE"),
            BLOCK_MODE => Some("BLOCK_MODE"),
            DIGEST => Some("DIGEST"),
            RSA_OAEP_MGF_DIGEST => Some("RSA_OAEP_MGF_DIGEST"),
            PADDING => Some("PADDING"),
            CALLER_NONCE => Some("CALLER_NONCE"),
            MIN_MAC_LENGTH => Some("MIN_MAC_LENGTH"),
            EC_CURVE => Some("EC_CURVE"),
            RSA_PUBLIC_EXPONENT => Some("RSA_PUBLIC_EXPONENT"),
            INCLUDE_UNIQUE_ID => Some("INCLUDE_UNIQUE_ID"),
            BOOTLOADER_ONLY => Some("BOOTLOADER_ONLY"),
            ROLLBACK_RESISTANCE => Some("ROLLBACK_RESISTANCE"),
            EARLY_BOOT_ONLY => Some("EARLY_BOOT_ONLY"),
            ACTIVE_DATETIME => Some("ACTIVE_DATETIME"),
            ORIGINATION_EXPIRE_DATETIME => Some("ORIGINATION_EXPIRE_DATETIME"),
            USAGE_EXPIRE_DATETIME => Some("USAGE_EXPIRE_DATETIME"),
            MIN_SECONDS_BETWEEN_OPS => Some("MIN_SECONDS_BETWEEN_OPS"),
            MAX_USES_PER_BOOT => Some("MAX_USES_PER_BOOT"),
            USAGE_COUNT_LIMIT => Some("USAGE_COUNT_LIMIT"),
            USER_ID => Some("USER_ID"),
            USER_SECURE_ID => Some("USER_SECURE_ID"),
            NO_AUTH_REQUIRED => Some("NO_AUTH_REQUIRED"),
            USER_AUTH_TYPE => Some("USER_AUTH_TYPE"),
            AUTH_TIMEOUT => Some("AUTH_TIMEOUT"),
            ALLOW_WHILE_ON_BODY => Some("ALLOW_WHILE_ON_BODY"),
            TRUSTED_USER_PRESENCE_REQUIRED => Some("TRUSTED_USER_PRESENCE_REQUIRED"),
            TRUSTED_CONFIRMATION_REQUIRED => Some("TRUSTED_CONFIRMATION_REQUIRED"),
            UNLOCKED_DEVICE_REQUIRED => Some("UNLOCKED_DEVICE_REQUIRED"),
            APPLICATION_ID => Some("APPLICATION_ID"),
            APPLICATION_DATA => Some("APPLICATION_DATA"),
            CREATION_DATETIME => Some("CREATION_DATETIME"),
            ORIGIN => Some("ORIGIN"),
            ROOT_OF_TRUST => Some("ROOT_OF_TRUST"),
            OS_VERSION => Some("OS_VERSION"),
            OS_PATCHLEVEL => Some("OS_PATCHLEVEL"),
            UNIQUE_ID => Some("UNIQUE_ID"),
            ATTESTATION_CHALLENGE => Some("ATTESTATION_CHALLENGE"),
            ATTESTATION_APPLICATION_ID => Some("ATTESTATION_APPLICATION_ID"),
            ATTESTATION_ID_BRAND => Some("ATTESTATION_ID_BRAND"),
            ATTESTATION_ID_DEVICE => Some("ATTESTATION_ID_DEVICE"),
            ATTESTATION_ID_PRODUCT => Some("ATTESTATION_ID_PRODUCT"),
            ATTESTATION_ID_SERIAL => Some("ATTESTATION_ID_SERIAL"),
            ATTESTATION_ID_IMEI => Some("ATTESTATION_ID_IMEI"),
            ATTESTATION_ID_SECOND_IMEI => Some("ATTESTATION_ID_SECOND_IMEI"),
            ATTESTATION_ID_MEID => Some("ATTESTATION_ID_MEID"),
            ATTESTATION_ID_MANUFACTURER => Some("ATTESTATION_ID_MANUFACTURER"),
            ATTESTATION_ID_MODEL => Some("ATTESTATION_ID_MODEL"),
            VENDOR_PATCHLEVEL => Some("VENDOR_PATCHLEVEL"),
            BOOT_PATCHLEVEL => Some("BOOT_PATCHLEVEL"),
            ASSOCIATED_DATA => Some("ASSOCIATED_DATA"),
            NONCE => Some("NONCE"),
            MAC_LENGTH => Some("MAC_LENGTH"),
            RESET_SINCE_ID_ROTATION => Some("RESET_SINCE_ID_ROTATION"),
            CONFIRMATION_TOKEN => Some("CONFIRMATION_TOKEN"),
            CERTIFICATE_SERIAL => Some("CERTIFICATE_SERIAL"),
            CERTIFICATE_SUBJECT => Some("CERTIFICATE_SUBJECT"),
            CERTIFICATE_NOT_BEFORE => Some("CERTIFICATE_NOT_BEFORE"),
            CERTIFICATE_NOT_AFTER => Some("CERTIFICATE_NOT_AFTER"),
            MAX_BOOT_LEVEL => Some("MAX_BOOT_LEVEL"),
            _ => None,
        }
    }
}

} // verus!
