//! The key parameter: a value together with the security level that
//! enforces it, and the authorization that a client gets to see.

use vstd::prelude::*;
use crate::model::ParameterModel;
use crate::storage::SqlValue;
use crate::storage::StorageError;
use crate::tag::name_of;

pub use crate::key_parameter_value::KeyParameterValue;
pub use crate::keymint::Algorithm;
pub use crate::keymint::BlockMode;
pub use crate::keymint::Digest;
pub use crate::keymint::EcCurve;
pub use crate::keymint::HardwareAuthenticatorType;
pub use crate::keymint::KeyOrigin;
pub use crate::keymint::KeyPurpose;
pub use crate::keymint::KmKeyParameter;
pub use crate::keymint::KmKeyParameterValue;
pub use crate::keymint::PaddingMode;
pub use crate::keymint::SecurityLevel;
pub use crate::primitive::Primitive;
pub use crate::primitive::PrimitiveError;
pub use crate::tag::Tag;

verus! {

/// What a client is told of a key: a parameter in its wire form and the
/// security level that enforces it.
#[derive(Debug, PartialEq, Eq)]
pub struct Authorization {
    pub security_level: SecurityLevel,
    pub key_parameter: KmKeyParameter,
}

/// KeyParameter wraps the KeyParameterValue and the security level at which
/// it is enforced.
#[derive(Debug, Clone, PartialEq, Eq, PartialOrd, Ord)]
pub struct KeyParameter {
    value: KeyParameterValue,
    security_level: SecurityLevel,
}

impl KeyParameter {
    /// The value of the parameter.
    pub closed spec fn spec_key_parameter_value(&self) -> &KeyParameterValue {
        &self.value
    }

    /// The security level of the parameter.
    pub closed spec fn spec_security_level(&self) -> &SecurityLevel {
        &self.security_level
    }

    /// Create an instance of KeyParameter, given the value and the security
    /// level.
    pub fn new(value: KeyParameterValue, security_level: SecurityLevel) -> (r: Self)
        ensures
            *r.key_parameter_value() == value,
            *r.security_level() == security_level,
    {
        KeyParameter { value, security_level }
    }

    /// Construct a KeyParameter from a tag, the cell of the store that holds
    /// its payload and a security level. An unlisted tag gives the invalid
    /// value. For a listed tag this fails exactly where the cell cannot be
    /// read as the type that the tag declares, and the error then carries
    /// the name of the tag.
    pub fn new_from_sql(tag_val: Tag, data: &SqlValue, security_level_val: SecurityLevel) -> (r:
        Result<Self, StorageError>)
        ensures
            match ParameterModel::from_cell(tag_val, data@) {
                Some(model) => {
                    &&& r is Ok
                    &&& r->Ok_0.key_parameter_value()@ == model
                    &&& *r->Ok_0.security_level() == security_level_val
                },
                None => r is Err && Some(r->Err_0.tag_name()@) == name_of(tag_val),
            },
    {
        Ok(
            KeyParameter {
                value: KeyParameterValue::new_from_sql(tag_val, data)?,
                security_level: security_level_val,
            },
        )
    }

    /// Get the tag of this key parameter.
    pub fn get_tag(&self) -> (r: Tag)
        ensures
            r == self.key_parameter_value().tag(),
    {
        self.value.get_tag()
    }

    /// Returns key parameter value.
    #[verifier::when_used_as_spec(spec_key_parameter_value)]
    pub fn key_parameter_value(&self) -> (r: &KeyParameterValue)
        ensures
            r == self.spec_key_parameter_value(),
    {
        &self.value
    }

    /// Returns the security level of this key parameter.
    #[verifier::when_used_as_spec(spec_security_level)]
    pub fn security_level(&self) -> (r: &SecurityLevel)
        ensures
            r == self.spec_security_level(),
    {
        &self.security_level
    }

    /// An authorization is a key parameter with its security level, in the
    /// form that conveys the key characteristics to clients. This function
    /// consumes the key parameter to produce it.
    pub fn into_authorization(self) -> (r: Authorization)
        ensures
            r.security_level == *self.security_level(),
            r.key_parameter@ == self.key_parameter_value()@.to_wire(),
    {
        Authorization { security_level: self.security_level, key_parameter: self.value.into() }
    }
}

} // verus!
