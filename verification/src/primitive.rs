//! The primitive interchange layer: the three raw encodings that every
//! payload of a key parameter maps to.

use vstd::prelude::*;
use vstd::std_specs::convert::FromSpecImpl;
use vstd::std_specs::convert::TryFromSpecImpl;
use crate::class::Payload;
use crate::keymint::Algorithm;
use crate::keymint::BlockMode;
use crate::keymint::Digest;
use crate::keymint::EcCurve;
use crate::keymint::HardwareAuthenticatorType;
use crate::keymint::KeyOrigin;
use crate::keymint::KeyPurpose;
use crate::keymint::PaddingMode;
use crate::keymint::SecurityLevel;

verus! {

/// A raw value that can be paired with a tag to make a key parameter.
#[derive(Debug, PartialEq, Eq)]
pub enum Primitive {
    /// Wraps an i64.
    I64(i64),
    /// Wraps an i32.
    I32(i32),
    /// Wraps a Vec<u8>.
    Vec(Vec<u8>),
}

impl View for Primitive {
    type V = Payload;

    /// The payload that the primitive stands for. It is never absent.
    open spec fn view(&self) -> Payload {
        match *self {
            Primitive::I64(v) => Payload::Int64(v),
            Primitive::I32(v) => Payload::Int32(v),
            Primitive::Vec(v) => Payload::Bytes(v@),
        }
    }
}

/// Copies a sequence of bytes.
pub(crate) fn clone_bytes(bytes: &Vec<u8>) -> (r: Vec<u8>)
    ensures
        r@ == bytes@,
{
    let r = bytes.clone();
    assert(r@ =~= bytes@);
    r
}

impl Clone for Primitive {
    fn clone(&self) -> (r: Self)
        ensures
            r@ == self@,
    {
        match self {
            Primitive::I64(v) => Primitive::I64(*v),
            Primitive::I32(v) => Primitive::I32(*v),
            Primitive::Vec(v) => Primitive::Vec(clone_bytes(v)),
        }
    }
}

/// Why a primitive and a tag do not make a key parameter.
#[derive(Debug, Clone, Copy, PartialEq, Eq, PartialOrd, Ord, Hash, Structural)]
pub enum PrimitiveError {
    /// The primitive is unsuitable for the type that the tag declares.
    TypeMismatch,
    /// The tag is unknown.
    UnknownTag,
}

impl PrimitiveError {
    /// The text that describes this error.
    pub open spec fn description(self) -> Seq<char> {
        match self {
            PrimitiveError::TypeMismatch => "Primitive does not match the expected tag type."@,
            PrimitiveError::UnknownTag => "Unknown tag."@,
        }
    }

    /// Describes the error in words.
    pub fn message(&self) -> (r: &'static str)
        ensures
            r@ == self.description(),
    {
        match self {
            PrimitiveError::TypeMismatch => "Primitive does not match the expected tag type.",
            PrimitiveError::UnknownTag => "Unknown tag.",
        }
    }
}

impl From<i64> for Primitive {
    fn from(v: i64) -> (r: Self) {
        Primitive::I64(v)
    }
}

impl FromSpecImpl<i64> for Primitive {
    open spec fn obeys_from_spec() -> bool {
        true
    }

    open spec fn from_spec(v: i64) -> Self {
        Primitive::I64(v)
    }
}

impl From<i32> for Primitive {
    fn from(v: i32) -> (r: Self) {
        Primitive::I32(v)
    }
}

impl FromSpecImpl<i32> for Primitive {
    open spec fn obeys_from_spec() -> bool {
        true
    }

    open spec fn from_spec(v: i32) -> Self {
        Primitive::I32(v)
    }
}

impl From<Vec<u8>> for Primitive {
    fn from(v: Vec<u8>) -> (r: Self) {
        Primitive::Vec(v)
    }
}

impl FromSpecImpl<Vec<u8>> for Primitive {
    open spec fn obeys_from_spec() -> bool {
        true
    }

    open spec fn from_spec(v: Vec<u8>) -> Self {
        Primitive::Vec(v)
    }
}

impl TryFrom<Primitive> for i64 {
    type Error = PrimitiveError;

    fn try_from(p: Primitive) -> (r: Result<i64, PrimitiveError>) {
        match p {
            Primitive::I64(v) => Ok(v),
            _ => Err(PrimitiveError::TypeMismatch),
        }
    }
}

impl TryFromSpecImpl<Primitive> for i64 {
    open spec fn obeys_try_from_spec() -> bool {
        true
    }

    open spec fn try_from_spec(p: Primitive) -> Result<i64, PrimitiveError> {
        match p {
            Primitive::I64(v) => Ok(v),
            _ => Err(PrimitiveError::TypeMismatch),
        }
    }
}

impl TryFrom<Primitive> for i32 {
    type Error = PrimitiveError;

    fn try_from(p: Primitive) -> (r: Result<i32, PrimitiveError>) {
        match p {
            Primitive::I32(v) => Ok(v),
            _ => Err(PrimitiveError::TypeMismatch),
        }
    }
}

impl TryFromSpecImpl<Primitive> for i32 {
    open spec fn obeys_try_from_spec() -> bool {
        true
    }

    open spec fn try_from_spec(p: Primitive) -> Result<i32, PrimitiveError> {
        match p {
            Primitive::I32(v) => Ok(v),
            _ => Err(PrimitiveError::TypeMismatch),
        }
    }
}

impl TryFrom<Primitive> for Vec<u8> {
    type Error = PrimitiveError;

    fn try_from(p: Primitive) -> (r: Result<Vec<u8>, PrimitiveError>) {
        match p {
            Primitive::Vec(v) => Ok(v),
            _ => Err(PrimitiveError::TypeMismatch),
        }
    }
}

impl TryFromSpecImpl<Primitive> for Vec<u8> {
    open spec fn obeys_try_from_spec() -> bool {
        true
    }

    open spec fn try_from_spec(p: Primitive) -> Result<Vec<u8>, PrimitiveError> {
        match p {
            Primitive::Vec(v) => Ok(v),
            _ => Err(PrimitiveError::TypeMismatch),
        }
    }
}

/// Associates a type that a key parameter can carry with the primitive type
/// that stands for it. The two conversions lose nothing: each keeps the
/// payload.
pub trait AssociatePrimitive: Sized {
    /// The primitive type that stands for `Self`.
    type Primitive: Into<Primitive> + TryFrom<Primitive>;

    /// The payload that a value of the type is.
    spec fn payload(&self) -> Payload;

    /// The payload that a value of the primitive type is.
    spec fn primitive_payload(v: &Self::Primitive) -> Payload;

    /// The value of the type that a primitive stands for.
    fn from_primitive(v: Self::Primitive) -> (r: Self)
        ensures
            r.payload() == Self::primitive_payload(&v),
    ;

    /// The primitive that stands for a value of the type.
    fn to_primitive(&self) -> (r: Self::Primitive)
        ensures
            Self::primitive_payload(&r) == self.payload(),
    ;
}

impl AssociatePrimitive for Algorithm {
    type Primitive = i32;

    open spec fn payload(&self) -> Payload {
        Payload::Int32(self.0)
    }

    open spec fn primitive_payload(v: &i32) -> Payload {
        Payload::Int32(*v)
    }

    fn from_primitive(v: i32) -> (r: Self) {
        Algorithm(v)
    }

    fn to_primitive(&self) -> (r: i32) {
        self.0
    }
}

impl AssociatePrimitive for BlockMode {
    type Primitive = i32;

    open spec fn payload(&self) -> Payload {
        Payload::Int32(self.0)
    }

    open spec fn primitive_payload(v: &i32) -> Payload {
        Payload::Int32(*v)
    }

    fn from_primitive(v: i32) -> (r: Self) {
        BlockMode(v)
    }

    fn to_primitive(&self) -> (r: i32) {
        self.0
    }
}

impl AssociatePrimitive for Digest {
    type Primitive = i32;

    open spec fn payload(&self) -> Payload {
        Payload::Int32(self.0)
    }

    open spec fn primitive_payload(v: &i32) -> Payload {
        Payload::Int32(*v)
    }

    fn from_primitive(v: i32) -> (r: Self) {
        Digest(v)
    }

    fn to_primitive(&self) -> (r: i32) {
        self.0
    }
}

impl AssociatePrimitive for EcCurve {
    type Primitive = i32;

    open spec fn payload(&self) -> Payload {
        Payload::Int32(self.0)
    }

    open spec fn primitive_payload(v: &i32) -> Payload {
        Payload::Int32(*v)
    }

    fn from_primitive(v: i32) -> (r: Self) {
        EcCurve(v)
    }

    fn to_primitive(&self) -> (r: i32) {
        self.0
    }
}

impl AssociatePrimitive for HardwareAuthenticatorType {
    type Primitive = i32;

    open spec fn payload(&self) -> Payload {
        Payload::Int32(self.0)
    }

    open spec fn primitive_payload(v: &i32) -> Payload {
        Payload::Int32(*v)
    }

    fn from_primitive(v: i32) -> (r: Self) {
        HardwareAuthenticatorType(v)
    }

    fn to_primitive(&self) -> (r: i32) {
        self.0
    }
}

impl AssociatePrimitive for KeyOrigin {
    type Primitive = i32;

    open spec fn payload(&self) -> Payload {
        Payload::Int32(self.0)
    }

    open spec fn primitive_payload(v: &i32) -> Payload {
        Payload::Int32(*v)
    }

    fn from_primitive(v: i32) -> (r: Self) {
        KeyOrigin(v)
    }

    fn to_primitive(&self) -> (r: i32) {
        self.0
    }
}

impl AssociatePrimitive for KeyPurpose {
    type Primitive = i32;

    open spec fn payload(&self) -> Payload {
        Payload::Int32(self.0)
    }

    open spec fn primitive_payload(v: &i32) -> Payload {
        Payload::Int32(*v)
    }

    fn from_primitive(v: i32) -> (r: Self) {
        KeyPurpose(v)
    }

    fn to_primitive(&self) -> (r: i32) {
        self.0
    }
}

impl AssociatePrimitive for PaddingMode {
    type Primitive = i32;

    open spec fn payload(&self) -> Payload {
        Payload::Int32(self.0)
    }

    open spec fn primitive_payload(v: &i32) -> Payload {
        Payload::Int32(*v)
    }

    fn from_primitive(v: i32) -> (r: Self) {
        PaddingMode(v)
    }

    fn to_primitive(&self) -> (r: i32) {
        self.0
    }
}

impl AssociatePrimitive for SecurityLevel {
    type Primitive = i32;

    open spec fn payload(&self) -> Payload {
        Payload::Int32(self.0)
    }

    open spec fn primitive_payload(v: &i32) -> Payload {
        Payload::Int32(*v)
    }

    fn from_primitive(v: i32) -> (r: Self) {
        SecurityLevel(v)
    }

    fn to_primitive(&self) -> (r: i32) {
        self.0
    }
}

impl AssociatePrimitive for i32 {
    type Primitive = i32;

    open spec fn payload(&self) -> Payload {
        Payload::Int32(*self)
    }

    open spec fn primitive_payload(v: &i32) -> Payload {
        Payload::Int32(*v)
    }

    fn from_primitive(v: i32) -> (r: Self) {
        v
    }

    fn to_primitive(&self) -> (r: i32) {
        *self
    }
}

impl AssociatePrimitive for i64 {
    type Primitive = i64;

    open spec fn payload(&self) -> Payload {
        Payload::Int64(*self)
    }

    open spec fn primitive_payload(v: &i64) -> Payload {
        Payload::Int64(*v)
    }

    fn from_primitive(v: i64) -> (r: Self) {
        v
    }

    fn to_primitive(&self) -> (r: i64) {
        *self
    }
}

impl AssociatePrimitive for Vec<u8> {
    type Primitive = Vec<u8>;

    open spec fn payload(&self) -> Payload {
        Payload::Bytes(self@)
    }

    open spec fn primitive_payload(v: &Vec<u8>) -> Payload {
        Payload::Bytes(v@)
    }

    fn from_primitive(v: Vec<u8>) -> (r: Self) {
        v
    }

    fn to_primitive(&self) -> (r: Vec<u8>) {
        clone_bytes(self)
    }
}

} // verus!
