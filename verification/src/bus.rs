use vstd::prelude::*;

use crate::value::DynValue;

verus! {

#[verifier::external_type_specification]
#[verifier::external_body]
pub struct ExMessage(zbus::Message);

#[verifier::external_type_specification]
#[verifier::external_body]
pub struct ExBody(zbus::message::Body);

#[verifier::external_type_specification]
#[verifier::external_body]
pub struct ExValue<'a>(zbus::zvariant::Value<'a>);

/// Relies on `zbus::Message::body`: hands out the message's payload.
#[verifier::external_body]
pub(crate) fn message_body(m: &zbus::Message) -> zbus::message::Body {
    m.body()
}

/// Relies on `zbus::message::Body::deserialize::<bool>`: decodes the payload
/// as a plain boolean when its signature is one, and fails otherwise.
#[verifier::external_body]
pub(crate) fn read_bool(b: &zbus::message::Body) -> Option<bool> {
    match b.deserialize::<bool>() {
        Ok(v) => Some(v),
        Err(_) => None,
    }
}

/// Relies on `zvariant::Value`'s variants: rewrites the decoded value into
/// the library's payload model, one wrapper layer at a time; anything that
/// is neither a boolean nor a nested dynamic value keeps only its rendering.
#[verifier::external_body]
pub(crate) fn dyn_of_value(v: &zbus::zvariant::Value) -> DynValue {
    match v {
        zbus::zvariant::Value::Bool(b) => DynValue::Bool(*b),
        zbus::zvariant::Value::Value(inner) => DynValue::Wrapped(Box::new(dyn_of_value(inner))),
        other => DynValue::Other(format!("{:?}", other)),
    }
}

/// Relies on `zbus::message::Body::deserialize::<zvariant::Value>`: decodes
/// the payload as a generic dynamic value.
#[verifier::external_body]
pub(crate) fn read_dyn(b: &zbus::message::Body) -> Option<DynValue> {
    match b.deserialize::<zbus::zvariant::Value>() {
        Ok(v) => Some(dyn_of_value(&v)),
        Err(_) => None,
    }
}

} // verus!
