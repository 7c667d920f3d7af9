//! Trusted boundary to the serde_json crate. A frame's envelope is a JSON
//! document; whether the bytes form one, and what its members hold, is
//! settled by serde_json. The result of that decoding depends on the
//! frame's bytes alone, so it is given a name, `env_of`, and the one
//! trusted item below promises exactly that its result is `env_of` of the
//! bytes. Every contract downstream — classification as a function of the
//! frame's bytes among them — rests on that single promise.

use vstd::prelude::*;
use crate::envelope::{Envelope, EnvelopeView, ListItem, ParamValue, opt_env_view};

verus! {

/// Declares serde_json's document type so that the conversion helpers
/// below can name it in their signatures; a value of it carries no
/// information the verifier can see.
#[verifier::external_type_specification]
#[verifier::external_body]
pub struct ExValue(serde_json::Value);

/// The envelope of a byte sequence: the structural decode of the bytes as
/// one JSON document — its method name, request identifier and positional
/// parameters as plain values — or nothing when the bytes are not one
/// valid JSON text. Parsing depends on the bytes alone, so the name is
/// well defined; no contract says what it is on given bytes.
pub uninterp spec fn env_of(b: Seq<u8>) -> Option<EnvelopeView>;

/// One entry of a parameter that is an array: text is kept, every other
/// document kind is marked for the classifier to skip. One arm per
/// serde_json document variant, moving fields only.
#[verifier::external_body]
fn list_item_of_value(v: &serde_json::Value) -> ListItem {
    match v {
        serde_json::Value::String(s) => ListItem::Text(s.clone()),
        _ => ListItem::Other,
    }
}

/// One positional parameter of the document, converted variant by
/// variant. Relies on `serde_json::Number::as_u64` for the unsigned value
/// of a number and on its display form for the number's text.
#[verifier::external_body]
fn param_of_value(v: &serde_json::Value) -> ParamValue {
    match v {
        serde_json::Value::String(s) => ParamValue::Text(s.clone()),
        serde_json::Value::Bool(b) => ParamValue::Bool(*b),
        serde_json::Value::Number(n) => ParamValue::Num { uint: n.as_u64(), text: n.to_string() },
        serde_json::Value::Array(a) => ParamValue::List(a.iter().map(list_item_of_value).collect()),
        _ => ParamValue::Other,
    }
}

/// Decodes the structural envelope of a frame. Relies on
/// `serde_json::from_slice`, which returns a document exactly when the
/// bytes are one valid JSON text, and on `serde_json::Value::get`,
/// `Value::as_str` and `Value::as_u64` for the named members; the
/// positional parameters are converted by the helpers above. The whole
/// result is a function of the frame's bytes alone and is promised to be
/// `env_of` of them; everything from the returned envelope on is
/// verified.
#[verifier::external_body]
pub fn extract_envelope(frame: &[u8]) -> (r: Option<Envelope>)
    ensures
        opt_env_view(r) == env_of(frame@),
{
    let v: serde_json::Value = match serde_json::from_slice(frame) {
        Ok(d) => d,
        Err(_) => return None,
    };
    let method = v.get("method").and_then(|m| m.as_str()).map(|s| s.to_owned());
    let id = v.get("id").and_then(|i| i.as_u64());
    let params = v.get("params").and_then(|p| p.as_array()).map(|a| a.iter().map(param_of_value).collect());
    Some(Envelope { method, id, params })
}

} // verus!
