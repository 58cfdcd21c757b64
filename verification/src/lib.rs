//! Typed key parameters and the conversions between their wire, storage and
//! primitive representations.
//!
//! A key parameter is a tag and the payload that the tag declares. The table
//! in `class` says which class of payload each listed tag declares; `model`
//! states every conversion once, over the classes of that table;
//! `key_parameter_value` holds the parameter as an enum with one variant for
//! each listed tag and proves its conversions against those statements;
//! `laws` proves what holds of the conversions taken together.

pub mod class;
pub mod key_parameter;
pub mod key_parameter_value;
pub mod keymint;
pub mod laws;
pub mod model;
pub mod primitive;
pub mod storage;
pub mod tag;
