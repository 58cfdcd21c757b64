//! What the conversions compute, stated on the content of the values.
//!
//! A key parameter is a tag and a payload. Each conversion is a function of
//! that pair and of the table of tags alone, so each is written here once,
//! over the classes of the table, and the executable conversions are proved
//! against these definitions.

use vstd::prelude::*;
use crate::class::class_of;
use crate::class::Payload;
use crate::class::PayloadClass;
use crate::keymint::Algorithm;
use crate::keymint::BlockMode;
use crate::keymint::Digest;
use crate::keymint::EcCurve;
use crate::keymint::HardwareAuthenticatorType;
use crate::keymint::KeyOrigin;
use crate::keymint::KeyPurpose;
use crate::keymint::PaddingMode;
use crate::keymint::WireParameter;
use crate::keymint::WireValue;
use crate::primitive::PrimitiveError;
use crate::storage::cell_fits;
use crate::storage::cell_of;
use crate::storage::payload_of_cell;
use crate::storage::Cell;
use crate::tag;
use crate::tag::Tag;

verus! {

/// The content of a key parameter: its tag and its payload.
pub struct ParameterModel {
    pub tag: Tag,
    pub payload: Payload,
}

/// The value of the wire union that carries a payload of the given class.
/// The two classes without payload have a field to fill all the same: a flag
/// travels as `true`, since to be present is to hold, and the invalid
/// parameter as zero.
pub open spec fn wire_value(class: PayloadClass, payload: Payload) -> WireValue {
    match class {
        PayloadClass::Empty => WireValue::Invalid(0),
        PayloadClass::Flag => WireValue::BoolValue(true),
        PayloadClass::Int32 => WireValue::Integer(payload->Int32_0),
        PayloadClass::Int64 => WireValue::LongInteger(payload->Int64_0),
        PayloadClass::DateTime => WireValue::DateTime(payload->Int64_0),
        PayloadClass::Bytes => WireValue::Blob(payload->Bytes_0),
        PayloadClass::Algorithm => WireValue::Algorithm(Algorithm(payload->Int32_0)),
        PayloadClass::BlockMode => WireValue::BlockMode(BlockMode(payload->Int32_0)),
        PayloadClass::PaddingMode => WireValue::PaddingMode(PaddingMode(payload->Int32_0)),
        PayloadClass::Digest => WireValue::Digest(Digest(payload->Int32_0)),
        PayloadClass::EcCurve => WireValue::EcCurve(EcCurve(payload->Int32_0)),
        PayloadClass::KeyOrigin => WireValue::Origin(KeyOrigin(payload->Int32_0)),
        PayloadClass::KeyPurpose => WireValue::KeyPurpose(KeyPurpose(payload->Int32_0)),
        PayloadClass::HardwareAuthenticatorType => WireValue::HardwareAuthenticatorType(
            HardwareAuthenticatorType(payload->Int32_0),
        ),
    }
}

impl ParameterModel {
    /// The invalid parameter, to which unrecognised input degrades.
    pub open spec fn invalid() -> ParameterModel {
        ParameterModel { tag: Tag(tag::INVALID), payload: Payload::Absent }
    }

    /// The tag is listed and the payload has the shape that the tag declares.
    pub open spec fn well_formed(self) -> bool {
        match class_of(self.tag) {
            Some(class) => class.admits(self.payload),
            None => false,
        }
    }

    /// The parameter that a tag and a primitive make. An unlisted tag is an
    /// error. A tag without payload makes its parameter whatever the
    /// primitive is; any other tag wants the primitive of its class.
    pub open spec fn from_primitive(tag: Tag, primitive: Payload) -> Result<
        ParameterModel,
        PrimitiveError,
    > {
        match class_of(tag) {
            None => Err(PrimitiveError::UnknownTag),
            Some(class) => if class.is_bare() {
                Ok(ParameterModel { tag, payload: Payload::Absent })
            } else if class.admits(primitive) {
                Ok(ParameterModel { tag, payload: primitive })
            } else {
                Err(PrimitiveError::TypeMismatch)
            },
        }
    }

    /// The parameter that a cell of the store holds under a tag, or `None`
    /// where the cell cannot be read as the tag's class. An unlisted tag
    /// gives the invalid parameter and reads nothing.
    pub open spec fn from_cell(tag: Tag, cell: Cell) -> Option<ParameterModel> {
        match class_of(tag) {
            None => Some(ParameterModel::invalid()),
            Some(class) => match payload_of_cell(class, cell) {
                Some(payload) => Some(ParameterModel { tag, payload }),
                None => None,
            },
        }
    }

    /// The parameter that a wire parameter stands for: the one of its tag
    /// where the union has the field of the tag's class set, and the invalid
    /// one otherwise.
    pub open spec fn from_wire(wire: WireParameter) -> ParameterModel {
        match class_of(wire.tag) {
            Some(class) if wire.value.field() == class.field() => ParameterModel {
                tag: wire.tag,
                payload: wire.value.payload(),
            },
            _ => ParameterModel::invalid(),
        }
    }

    /// Whether a cell holds what is stored under a tag: what is stored for
    /// the class of a listed tag, and NULL, as for the invalid parameter,
    /// under an unlisted one.
    pub open spec fn stored_under(tag: Tag, cell: Cell) -> bool {
        match class_of(tag) {
            Some(class) => cell_fits(class, cell),
            None => cell is Null,
        }
    }

    /// The cell in which the parameter is stored.
    pub open spec fn to_cell(self) -> Cell {
        cell_of(self.payload)
    }

    /// The parameter on the wire.
    pub open spec fn to_wire(self) -> WireParameter
        recommends
            self.well_formed(),
    {
        WireParameter { tag: self.tag, value: wire_value(class_of(self.tag).unwrap(), self.payload) }
    }
}

} // verus!
