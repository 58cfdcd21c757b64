//! Key parameters in the relational store: the cell that holds a payload, and
//! how a cell is read back as one of the three primitive types.

use vstd::prelude::*;
use vstd::string::StringExecFns;
use rusqlite::types::FromSql;
use rusqlite::types::FromSqlError;
use rusqlite::types::ValueRef;
use crate::class::Payload;
use crate::class::PayloadClass;
use crate::primitive::clone_bytes;

verus! {

/// The content of one cell of the store.
#[derive(Debug, PartialEq, Eq)]
pub enum SqlValue {
    /// The cell is NULL.
    Null,
    /// The cell holds a signed integer.
    Integer(i64),
    /// The cell holds a floating point number. No payload is stored as one,
    /// so the number itself is not kept.
    Real,
    /// The cell holds text, given by its bytes.
    Text(Vec<u8>),
    /// The cell holds a blob.
    Blob(Vec<u8>),
}

/// What a cell holds, with text and blob as sequences of bytes.
pub enum Cell {
    Null,
    Integer(i64),
    Real,
    Text(Seq<u8>),
    Blob(Seq<u8>),
}

impl View for SqlValue {
    type V = Cell;

    open spec fn view(&self) -> Cell {
        match *self {
            SqlValue::Null => Cell::Null,
            SqlValue::Integer(i) => Cell::Integer(i),
            SqlValue::Real => Cell::Real,
            SqlValue::Text(t) => Cell::Text(t@),
            SqlValue::Blob(b) => Cell::Blob(b@),
        }
    }
}

impl Clone for SqlValue {
    fn clone(&self) -> (r: Self)
        ensures
            r@ == self@,
    {
        match self {
            SqlValue::Null => SqlValue::Null,
            SqlValue::Integer(i) => SqlValue::Integer(*i),
            SqlValue::Real => SqlValue::Real,
            SqlValue::Text(t) => SqlValue::Text(clone_bytes(t)),
            SqlValue::Blob(b) => SqlValue::Blob(clone_bytes(b)),
        }
    }
}

/// The cell in which a payload is stored: NULL where there is none, an
/// integer cell for both widths of integer, a blob for bytes.
pub open spec fn cell_of(payload: Payload) -> Cell {
    match payload {
        Payload::Absent => Cell::Null,
        Payload::Int32(v) => Cell::Integer(v as i64),
        Payload::Int64(v) => Cell::Integer(v),
        Payload::Bytes(b) => Cell::Blob(b),
    }
}

/// The payload of the given class that a cell holds, or `None` where the
/// cell cannot be read as the type that the class declares. A class without
/// payload reads nothing, so that every cell will do for it.
pub open spec fn payload_of_cell(class: PayloadClass, cell: Cell) -> Option<Payload> {
    match class {
        PayloadClass::Empty | PayloadClass::Flag => Some(Payload::Absent),
        PayloadClass::Int64 | PayloadClass::DateTime => match cell {
            Cell::Integer(i) => Some(Payload::Int64(i)),
            _ => None,
        },
        PayloadClass::Bytes => match cell {
            Cell::Blob(b) => Some(Payload::Bytes(b)),
            _ => None,
        },
        _ => match cell {
            Cell::Integer(i) if i32::MIN <= i <= i32::MAX => Some(Payload::Int32(i as i32)),
            _ => None,
        },
    }
}

/// Whether a cell holds what is stored for the class: NULL for a class
/// without payload, an integer of the width of the class, or a blob.
pub open spec fn cell_fits(class: PayloadClass, cell: Cell) -> bool {
    match class {
        PayloadClass::Empty | PayloadClass::Flag => cell is Null,
        PayloadClass::Int64 | PayloadClass::DateTime => cell is Integer,
        PayloadClass::Bytes => cell is Blob,
        _ => cell matches Cell::Integer(i) && i32::MIN <= i <= i32::MAX,
    }
}

/// A cell could not be read as the type that its tag declares.
#[derive(Debug, Clone, Copy, PartialEq, Eq)]
pub enum StorageError {
    /// The value in the store is corrupted. Carries the name of the tag
    /// whose payload was to be read.
    ValueCorrupted { tag_name: &'static str },
}

impl StorageError {
    /// The name of the tag whose payload could not be read.
    pub open spec fn spec_tag_name(&self) -> &'static str {
        match *self {
            StorageError::ValueCorrupted { tag_name } => tag_name,
        }
    }

    /// The name of the tag whose payload could not be read.
    #[verifier::when_used_as_spec(spec_tag_name)]
    pub fn tag_name(&self) -> (r: &'static str)
        ensures
            r == self.spec_tag_name(),
    {
        match self {
            StorageError::ValueCorrupted { tag_name } => tag_name,
        }
    }

    /// Describes the error in words.
    pub fn message(&self) -> (r: String)
        ensures
            r@ == "Failed to read sql data for tag: "@ + self.tag_name()@ + "."@,
    {
        let text = String::from_str("Failed to read sql data for tag: ");
        text.concat(self.tag_name()).concat(".")
    }
}

/// The error with which the store's driver refuses to read a cell as a type.
#[verifier::external_type_specification]
#[verifier::external_body]
pub struct ExFromSqlError(FromSqlError);

/// Reads a cell as a 32-bit integer, by `FromSql::column_result` of
/// `rusqlite` for `i32`. The driver accepts exactly the integer cells whose
/// value fits in 32 bits, and returns that value.
#[verifier::external_body]
fn column_i32(cell: &SqlValue) -> (r: Result<i32, FromSqlError>)
    ensures
        r is Ok <==> (cell@ matches Cell::Integer(i) && i32::MIN <= i <= i32::MAX),
        r matches Ok(v) ==> cell@ == Cell::Integer(v as i64),
{
    let value = match cell {
        SqlValue::Null => ValueRef::Null,
        SqlValue::Integer(i) => ValueRef::Integer(*i),
        SqlValue::Real => ValueRef::Real(Default::default()),
        SqlValue::Text(t) => ValueRef::Text(t.as_slice()),
        SqlValue::Blob(b) => ValueRef::Blob(b.as_slice()),
    };
    <i32 as FromSql>::column_result(value)
}

/// Reads a cell as a 64-bit integer, by `FromSql::column_result` of
/// `rusqlite` for `i64`. The driver accepts exactly the integer cells, and
/// returns their value.
#[verifier::external_body]
fn column_i64(cell: &SqlValue) -> (r: Result<i64, FromSqlError>)
    ensures
        r is Ok <==> cell@ is Integer,
        r matches Ok(v) ==> cell@ == Cell::Integer(v),
{
    let value = match cell {
        SqlValue::Null => ValueRef::Null,
        SqlValue::Integer(i) => ValueRef::Integer(*i),
        SqlValue::Real => ValueRef::Real(Default::default()),
        SqlValue::Text(t) => ValueRef::Text(t.as_slice()),
        SqlValue::Blob(b) => ValueRef::Blob(b.as_slice()),
    };
    <i64 as FromSql>::column_result(value)
}

/// Reads a cell as bytes, by `FromSql::column_result` of `rusqlite` for
/// `Vec<u8>`. The driver accepts exactly the blob cells, and returns a copy
/// of their bytes.
#[verifier::external_body]
fn column_blob(cell: &SqlValue) -> (r: Result<Vec<u8>, FromSqlError>)
    ensures
        r is Ok <==> cell@ is Blob,
        r matches Ok(v) ==> cell@ == Cell::Blob(v@),
{
    let value = match cell {
        SqlValue::Null => ValueRef::Null,
        SqlValue::Integer(i) => ValueRef::Integer(*i),
        SqlValue::Real => ValueRef::Real(Default::default()),
        SqlValue::Text(t) => ValueRef::Text(t.as_slice()),
        SqlValue::Blob(b) => ValueRef::Blob(b.as_slice()),
    };
    <Vec<u8> as FromSql>::column_result(value)
}

/// Reads a cell as the 32-bit integer of the parameter with the given tag
/// name.
pub(crate) fn read_i32(cell: &SqlValue, tag_name: &'static str) -> (r: Result<i32, StorageError>)
    ensures
        match payload_of_cell(PayloadClass::Int32, cell@) {
            Some(payload) => r is Ok && payload == Payload::Int32(r->Ok_0),
            None => r == Err::<i32, StorageError>(StorageError::ValueCorrupted { tag_name }),
        },
{
    match column_i32(cell) {
        Ok(v) => Ok(v),
        Err(_) => Err(StorageError::ValueCorrupted { tag_name }),
    }
}

/// Reads a cell as the 64-bit integer of the parameter with the given tag
/// name.
pub(crate) fn read_i64(cell: &SqlValue, tag_name: &'static str) -> (r: Result<i64, StorageError>)
    ensures
        match payload_of_cell(PayloadClass::Int64, cell@) {
            Some(payload) => r is Ok && payload == Payload::Int64(r->Ok_0),
            None => r == Err::<i64, StorageError>(StorageError::ValueCorrupted { tag_name }),
        },
{
    match column_i64(cell) {
        Ok(v) => Ok(v),
        Err(_) => Err(StorageError::ValueCorrupted { tag_name }),
    }
}

/// Reads a cell as the bytes of the parameter with the given tag name.
pub(crate) fn read_blob(cell: &SqlValue, tag_name: &'static str) -> (r: Result<
    Vec<u8>,
    StorageError,
>)
    ensures
        match payload_of_cell(PayloadClass::Bytes, cell@) {
            Some(payload) => r is Ok && payload == Payload::Bytes(r->Ok_0@),
            None => r == Err::<Vec<u8>, StorageError>(StorageError::ValueCorrupted { tag_name }),
        },
{
    match column_blob(cell) {
        Ok(v) => Ok(v),
        Err(_) => Err(StorageError::ValueCorrupted { tag_name }),
    }
}

} // verus!
