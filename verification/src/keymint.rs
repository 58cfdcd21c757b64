//! The values that the key-management interface defines: its enumerations,
//! and the parameter as it travels on the wire.

use vstd::prelude::*;
use crate::class::Payload;
use crate::primitive::clone_bytes;
use crate::tag::Tag;

verus! {

/// A cryptographic algorithm.
#[derive(Clone, Copy, Debug, Default, PartialEq, Eq, PartialOrd, Ord, Hash, Structural)]
pub struct Algorithm(pub i32);

/// A block cipher mode.
#[derive(Clone, Copy, Debug, Default, PartialEq, Eq, PartialOrd, Ord, Hash, Structural)]
pub struct BlockMode(pub i32);

/// A digest algorithm.
#[derive(Clone, Copy, Debug, Default, PartialEq, Eq, PartialOrd, Ord, Hash, Structural)]
pub struct Digest(pub i32);

/// An elliptic curve.
#[derive(Clone, Copy, Debug, Default, PartialEq, Eq, PartialOrd, Ord, Hash, Structural)]
pub struct EcCurve(pub i32);

/// A type of hardware authenticator.
#[derive(Clone, Copy, Debug, Default, PartialEq, Eq, PartialOrd, Ord, Hash, Structural)]
pub struct HardwareAuthenticatorType(pub i32);

/// Where a key came from.
#[derive(Clone, Copy, Debug, Default, PartialEq, Eq, PartialOrd, Ord, Hash, Structural)]
pub struct KeyOrigin(pub i32);

/// A purpose for which a key may be used.
#[derive(Clone, Copy, Debug, Default, PartialEq, Eq, PartialOrd, Ord, Hash, Structural)]
pub struct KeyPurpose(pub i32);

/// A padding mode.
#[derive(Clone, Copy, Debug, Default, PartialEq, Eq, PartialOrd, Ord, Hash, Structural)]
pub struct PaddingMode(pub i32);

/// The trusted component that enforces a parameter.
#[derive(Clone, Copy, Debug, Default, PartialEq, Eq, PartialOrd, Ord, Hash, Structural)]
pub struct SecurityLevel(pub i32);

/// The fields of the wire union, by name.
#[derive(Clone, Copy, Debug, PartialEq, Eq, Hash, Structural)]
pub enum Field {
    Invalid,
    Algorithm,
    BlockMode,
    PaddingMode,
    Digest,
    EcCurve,
    Origin,
    KeyPurpose,
    HardwareAuthenticatorType,
    SecurityLevel,
    BoolValue,
    Integer,
    LongInteger,
    DateTime,
    Blob,
}

/// The value of a parameter on the wire: a union with one field for each kind
/// of payload.
#[derive(Debug, PartialEq, Eq)]
pub enum KmKeyParameterValue {
    Invalid(i32),
    Algorithm(Algorithm),
    BlockMode(BlockMode),
    PaddingMode(PaddingMode),
    Digest(Digest),
    EcCurve(EcCurve),
    Origin(KeyOrigin),
    KeyPurpose(KeyPurpose),
    HardwareAuthenticatorType(HardwareAuthenticatorType),
    SecurityLevel(SecurityLevel),
    BoolValue(bool),
    Integer(i32),
    LongInteger(i64),
    DateTime(i64),
    Blob(Vec<u8>),
}

/// What a wire value holds, with the blob as a sequence of bytes.
pub enum WireValue {
    Invalid(i32),
    Algorithm(Algorithm),
    BlockMode(BlockMode),
    PaddingMode(PaddingMode),
    Digest(Digest),
    EcCurve(EcCurve),
    Origin(KeyOrigin),
    KeyPurpose(KeyPurpose),
    HardwareAuthenticatorType(HardwareAuthenticatorType),
    SecurityLevel(SecurityLevel),
    BoolValue(bool),
    Integer(i32),
    LongInteger(i64),
    DateTime(i64),
    Blob(Seq<u8>),
}

impl WireValue {
    /// The field of the union that is set.
    pub open spec fn field(self) -> Field {
        match self {
            WireValue::Invalid(_) => Field::Invalid,
            WireValue::Algorithm(_) => Field::Algorithm,
            WireValue::BlockMode(_) => Field::BlockMode,
            WireValue::PaddingMode(_) => Field::PaddingMode,
            WireValue::Digest(_) => Field::Digest,
            WireValue::EcCurve(_) => Field::EcCurve,
            WireValue::Origin(_) => Field::Origin,
            WireValue::KeyPurpose(_) => Field::KeyPurpose,
            WireValue::HardwareAuthenticatorType(_) => Field::HardwareAuthenticatorType,
            WireValue::SecurityLevel(_) => Field::SecurityLevel,
            WireValue::BoolValue(_) => Field::BoolValue,
            WireValue::Integer(_) => Field::Integer,
            WireValue::LongInteger(_) => Field::LongInteger,
            WireValue::DateTime(_) => Field::DateTime,
            WireValue::Blob(_) => Field::Blob,
        }
    }

    /// The payload that a parameter takes from the field. The two fields of
    /// the parameters without payload give none, whatever they hold.
    pub open spec fn payload(self) -> Payload {
        match self {
            WireValue::Invalid(_) => Payload::Absent,
            WireValue::Algorithm(v) => Payload::Int32(v.0),
            WireValue::BlockMode(v) => Payload::Int32(v.0),
            WireValue::PaddingMode(v) => Payload::Int32(v.0),
            WireValue::Digest(v) => Payload::Int32(v.0),
            WireValue::EcCurve(v) => Payload::Int32(v.0),
            WireValue::Origin(v) => Payload::Int32(v.0),
            WireValue::KeyPurpose(v) => Payload::Int32(v.0),
            WireValue::HardwareAuthenticatorType(v) => Payload::Int32(v.0),
            WireValue::SecurityLevel(v) => Payload::Int32(v.0),
            WireValue::BoolValue(_) => Payload::Absent,
            WireValue::Integer(v) => Payload::Int32(v),
            WireValue::LongInteger(v) => Payload::Int64(v),
            WireValue::DateTime(v) => Payload::Int64(v),
            WireValue::Blob(v) => Payload::Bytes(v),
        }
    }
}

impl View for KmKeyParameterValue {
    type V = WireValue;

    open spec fn view(&self) -> WireValue {
        match *self {
            KmKeyParameterValue::Invalid(v) => WireValue::Invalid(v),
            KmKeyParameterValue::Algorithm(v) => WireValue::Algorithm(v),
            KmKeyParameterValue::BlockMode(v) => WireValue::BlockMode(v),
            KmKeyParameterValue::PaddingMode(v) => WireValue::PaddingMode(v),
            KmKeyParameterValue::Digest(v) => WireValue::Digest(v),
            KmKeyParameterValue::EcCurve(v) => WireValue::EcCurve(v),
            KmKeyParameterValue::Origin(v) => WireValue::Origin(v),
            KmKeyParameterValue::KeyPurpose(v) => WireValue::KeyPurpose(v),
            KmKeyParameterValue::HardwareAuthenticatorType(v) => WireValue::HardwareAuthenticatorType(v),
            KmKeyParameterValue::SecurityLevel(v) => WireValue::SecurityLevel(v),
            KmKeyParameterValue::BoolValue(v) => WireValue::BoolValue(v),
            KmKeyParameterValue::Integer(v) => WireValue::Integer(v),
            KmKeyParameterValue::LongInteger(v) => WireValue::LongInteger(v),
            KmKeyParameterValue::DateTime(v) => WireValue::DateTime(v),
            KmKeyParameterValue::Blob(v) => WireValue::Blob(v@),
        }
    }
}

impl Clone for KmKeyParameterValue {
    fn clone(&self) -> (r: Self)
        ensures
            r@ == self@,
    {
        match self {
            KmKeyParameterValue::Invalid(v) => KmKeyParameterValue::Invalid(*v),
            KmKeyParameterValue::Algorithm(v) => KmKeyParameterValue::Algorithm(*v),
            KmKeyParameterValue::BlockMode(v) => KmKeyParameterValue::BlockMode(*v),
            KmKeyParameterValue::PaddingMode(v) => KmKeyParameterValue::PaddingMode(*v),
            KmKeyParameterValue::Digest(v) => KmKeyParameterValue::Digest(*v),
            KmKeyParameterValue::EcCurve(v) => KmKeyParameterValue::EcCurve(*v),
            KmKeyParameterValue::Origin(v) => KmKeyParameterValue::Origin(*v),
            KmKeyParameterValue::KeyPurpose(v) => KmKeyParameterValue::KeyPurpose(*v),
            KmKeyParameterValue::HardwareAuthenticatorType(v) => {
                KmKeyParameterValue::HardwareAuthenticatorType(*v)
            },
            KmKeyParameterValue::SecurityLevel(v) => KmKeyParameterValue::SecurityLevel(*v),
            KmKeyParameterValue::BoolValue(v) => KmKeyParameterValue::BoolValue(*v),
            KmKeyParameterValue::Integer(v) => KmKeyParameterValue::Integer(*v),
            KmKeyParameterValue::LongInteger(v) => KmKeyParameterValue::LongInteger(*v),
            KmKeyParameterValue::DateTime(v) => KmKeyParameterValue::DateTime(*v),
            KmKeyParameterValue::Blob(v) => KmKeyParameterValue::Blob(clone_bytes(v)),
        }
    }
}

impl KmKeyParameterValue {
    /// The field of the union that is set.
    pub fn field(&self) -> (r: Field)
        ensures
            r == self@.field(),
    {
        match self {
            KmKeyParameterValue::Invalid(_) => Field::Invalid,
            KmKeyParameterValue::Algorithm(_) => Field::Algorithm,
            KmKeyParameterValue::BlockMode(_) => Field::BlockMode,
            KmKeyParameterValue::PaddingMode(_) => Field::PaddingMode,
            KmKeyParameterValue::Digest(_) => Field::Digest,
            KmKeyParameterValue::EcCurve(_) => Field::EcCurve,
            KmKeyParameterValue::Origin(_) => Field::Origin,
            KmKeyParameterValue::KeyPurpose(_) => Field::KeyPurpose,
            KmKeyParameterValue::HardwareAuthenticatorType(_) => Field::HardwareAuthenticatorType,
            KmKeyParameterValue::SecurityLevel(_) => Field::SecurityLevel,
            KmKeyParameterValue::BoolValue(_) => Field::BoolValue,
            KmKeyParameterValue::Integer(_) => Field::Integer,
            KmKeyParameterValue::LongInteger(_) => Field::LongInteger,
            KmKeyParameterValue::DateTime(_) => Field::DateTime,
            KmKeyParameterValue::Blob(_) => Field::Blob,
        }
    }
}

/// A parameter on the wire: a tag and the union that holds its value.
#[derive(Debug, PartialEq, Eq)]
pub struct KmKeyParameter {
    pub tag: Tag,
    pub value: KmKeyParameterValue,
}

/// What a wire parameter holds.
pub struct WireParameter {
    pub tag: Tag,
    pub value: WireValue,
}

impl View for KmKeyParameter {
    type V = WireParameter;

    open spec fn view(&self) -> WireParameter {
        WireParameter { tag: self.tag, value: self.value@ }
    }
}

impl Clone for KmKeyParameter {
    fn clone(&self) -> (r: Self)
        ensures
            r@ == self@,
    {
        KmKeyParameter { tag: self.tag, value: self.value.clone() }
    }
}

} // verus!
