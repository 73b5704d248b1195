//! The trusted boundary to the three external wire-format codecs.
//!
//! The core treats each codec operation as a pure, synchronous, fallible
//! function. Domain request and response objects are opaque here: the
//! library carries them between codec calls but never looks inside. Where an
//! operation's success is a function of its input bytes alone, that success
//! is given a name, so the adapters can state exactly which inputs are
//! classified as parse failures.
//!
//! Codec entry points that panic instead of failing on some inputs get no
//! wrapper whose contract would admit those inputs, as the library's
//! no-panic promise demands: building a DHI request panics on a JSON
//! document that is neither an object nor null (the wrapper rejects those
//! documents itself), and Sigma encoding panics when the encoded message
//! outgrows its five-digit length prefix (the wrappers bound their input
//! bytes so the message cannot outgrow it). SP parsing aborts on a field
//! whose text does not parse as its numeric type, and nothing here may
//! contain an abort, so that one call stands outside the library: the shell
//! performs it, contains it, and the adapter takes its outcome as an
//! argument.

use vstd::prelude::*;
use crate::exchange::EXCHANGE_BUFFER_CAPACITY;

verus! {

/// Makes Verus aware of the DHI domain request type; opaque to the library.
#[verifier::external_type_specification]
#[verifier::external_body]
pub struct ExDhiRequest(dhi_xml::DHIRequest);

/// Makes Verus aware of the DHI domain response type; opaque to the library.
#[verifier::external_type_specification]
#[verifier::external_body]
pub struct ExDhiResponse(dhi_xml::DHIResponse);

/// Makes Verus aware of the SP domain request type; opaque to the library.
#[verifier::external_type_specification]
#[verifier::external_body]
pub struct ExSpRequest(sp_xml::SPRequest);

/// Makes Verus aware of the SP domain response type; opaque to the library.
#[verifier::external_type_specification]
#[verifier::external_body]
pub struct ExSpResponse(sp_xml::SPResponse);

/// Largest inbound body the Sigma adapter hands to its codec. The Sigma
/// wire format announces a message's length in five decimal digits, so an
/// encoded message is capped at 99999 bytes. An encoded message is never
/// longer than the JSON text it was built from: every encoded field (a
/// six-byte tag-and-length header plus the field data, which never exceeds
/// its source text) is shorter than its JSON source, and the mandatory
/// SAF/SRC/MTI members pay for the fixed header and serial number. The
/// bound stays a margin below the frame cap to cover that fixed part.
pub const SIGMA_MAX_BODY_BYTES: usize = 99000;

/// Why a Sigma wire message could not be produced: the codec rejected the
/// input, or it could not encode the result.
#[derive(Debug)]
pub enum SigmaWireError {
    Rejected(String),
    Unencodable(String),
}

pub open spec fn is_rejected(e: SigmaWireError) -> bool {
    e matches SigmaWireError::Rejected(_)
}

/// Whether these bytes build a DHI domain request: they parse as a JSON
/// document that is an object or null. The successes of
/// serde_json::from_slice and of the document test depend on the bytes
/// alone.
pub uninterp spec fn dhi_request_buildable(body: Seq<u8>) -> bool;

/// Whether these bytes build a Sigma domain request: they parse as a JSON
/// document that extfg_sigma::SigmaRequest::from_json_value accepts. That
/// acceptance depends on the bytes alone - the randomly drawn serial number
/// never decides success.
pub uninterp spec fn sigma_request_buildable(body: Seq<u8>) -> bool;

/// Whether these bytes parse as a DHI response document; the success of
/// serde_xml_rs::from_reader at that type depends on the bytes alone.
pub uninterp spec fn dhi_response_accepts(body: Seq<u8>) -> bool;

/// Whether these bytes parse as a Sigma response message; the success of
/// extfg_sigma::SigmaResponse::decode depends on the bytes alone.
pub uninterp spec fn sigma_response_accepts(body: Seq<u8>) -> bool;

/// Whether these bytes decode as a Sigma response message that also
/// re-encodes: the composition of extfg_sigma::SigmaResponse::decode and
/// encode succeeds. Both are functions of the bytes alone - nothing random
/// enters the response path.
pub uninterp spec fn sigma_response_recodable(body: Seq<u8>) -> bool;

/// Relies on serde_json::from_slice and dhi_xml::DHIRequest::new: the body
/// builds a DHI domain request exactly when it parses as a JSON document
/// that is an object or null. On any other document DHIRequest::new panics
/// (it writes standard fields into the document by index), so the wrapper
/// rejects those documents itself. The built request also carries clock-
/// and random-filled fields, so nothing is stated of it.
#[verifier::external_body]
pub(crate) fn build_dhi_request(body: &Vec<u8>) -> (r: Result<dhi_xml::DHIRequest, String>)
    ensures
        r is Ok <==> dhi_request_buildable(body@),
{
    let v: serde_json::Value =
        serde_json::from_slice(body.as_slice()).map_err(|e| format!("{}", e))?;
    match v {
        serde_json::Value::Object(_) | serde_json::Value::Null => Ok(dhi_xml::DHIRequest::new(v)),
        _ => Err(String::from("DHI request body must be a JSON object")),
    }
}

/// Relies on dhi_xml::DHIRequest::serialize: on success the wire message is
/// the XML text preceded by a five-digit length prefix, so it holds at least
/// five characters.
#[verifier::external_body]
pub(crate) fn serialize_dhi_request(req: &dhi_xml::DHIRequest) -> (r: Result<String, String>)
    ensures
        r matches Ok(m) ==> m@.len() >= 5,
{
    req.serialize().map_err(|e| format!("{}", e))
}

/// Relies on serde_xml_rs::from_reader: parses the DHI response document
/// from bytes; whether it succeeds is a function of the bytes alone.
#[verifier::external_body]
pub(crate) fn parse_dhi_response(body: &Vec<u8>) -> (r: Result<dhi_xml::DHIResponse, String>)
    ensures
        r is Ok <==> dhi_response_accepts(body@),
{
    serde_xml_rs::from_reader::<&[u8], dhi_xml::DHIResponse>(body.as_slice())
        .map_err(|e| format!("{}", e))
}

/// Relies on dhi_xml::DHIResponse::serialize: serde_json::to_string over a
/// map with string keys and string values, which cannot fail.
#[verifier::external_body]
pub(crate) fn serialize_dhi_response(resp: &dhi_xml::DHIResponse) -> (r: Result<String, String>)
    ensures
        r is Ok,
{
    resp.serialize().map_err(|e| format!("{}", e))
}

/// Relies on sp_xml::SPRequest::gen_message_id: overwrites the message
/// identifier with a randomly drawn one, so nothing is stated of the result.
#[verifier::external_body]
pub(crate) fn assign_sp_message_id(req: &mut sp_xml::SPRequest) {
    req.gen_message_id();
}

/// Relies on sp_xml::SPRequest::serialize: encodes the request as an XML
/// text without the leading declaration. The generated serializer writes
/// statically ordered events into an in-memory buffer and has no failure
/// path for this type's fields, so it succeeds.
#[verifier::external_body]
pub(crate) fn serialize_sp_request(req: &sp_xml::SPRequest) -> (r: Result<String, String>)
    ensures
        r is Ok,
{
    req.serialize()
}

/// Relies on sp_xml::SPResponse::serialize: encodes the response as an XML
/// text without the leading declaration. The generated serializer writes
/// statically ordered events into an in-memory buffer and has no failure
/// path for this type's fields, so it succeeds.
#[verifier::external_body]
pub(crate) fn serialize_sp_response(resp: &sp_xml::SPResponse) -> (r: Result<String, String>)
    ensures
        r is Ok,
{
    resp.serialize()
}

/// Relies on serde_json::from_slice, extfg_sigma::SigmaRequest::from_json_value
/// and extfg_sigma::SigmaRequest::encode: builds the Sigma wire message for
/// an inbound JSON body. Whether the body builds a request is a function of
/// the bytes alone. Encoding panics when the message outgrows its five-digit
/// length prefix; an encoded message is never longer than the JSON text it
/// was built from, so the bound on the body keeps encoding from that panic.
/// On success the message carries the five-byte prefix.
#[verifier::external_body]
pub(crate) fn build_sigma_wire(body: &Vec<u8>) -> (r: Result<Vec<u8>, SigmaWireError>)
    requires
        body@.len() <= SIGMA_MAX_BODY_BYTES,
    ensures
        (r is Err && is_rejected(r->Err_0)) <==> !sigma_request_buildable(body@),
        r matches Ok(m) ==> m@.len() >= 5,
{
    let v: serde_json::Value = serde_json::from_slice(body.as_slice())
        .map_err(|e| SigmaWireError::Rejected(format!("{}", e)))?;
    let req = extfg_sigma::SigmaRequest::from_json_value(v)
        .map_err(|e| SigmaWireError::Rejected(format!("{}", e)))?;
    req.encode().map(|b| b.to_vec()).map_err(|e| SigmaWireError::Unencodable(format!("{}", e)))
}

/// Relies on extfg_sigma::SigmaResponse::decode and
/// extfg_sigma::SigmaResponse::encode: decodes a Sigma response message,
/// length prefix included, and re-encodes it for the HTTP answer. Whether
/// the bytes decode is a function of the bytes alone. Encoding panics when
/// the message outgrows its five-digit length prefix; decoding caps every
/// field by the message's own announced length, so a message that fits the
/// fixed exchange buffer re-encodes well inside that frame (lossy text
/// recovery expands a field by at most a small constant factor). On success
/// the message carries the five-byte prefix.
#[verifier::external_body]
pub(crate) fn recode_sigma_response(raw: &Vec<u8>) -> (r: Result<Vec<u8>, SigmaWireError>)
    requires
        raw@.len() <= EXCHANGE_BUFFER_CAPACITY,
    ensures
        r is Ok <==> sigma_response_recodable(raw@),
        (r is Err && is_rejected(r->Err_0)) <==> !sigma_response_accepts(raw@),
        r matches Ok(m) ==> m@.len() >= 5,
{
    let resp = extfg_sigma::SigmaResponse::decode(bytes::Bytes::copy_from_slice(raw.as_slice()))
        .map_err(|e| SigmaWireError::Rejected(format!("{}", e)))?;
    resp.encode().map(|b| b.to_vec()).map_err(|e| SigmaWireError::Unencodable(format!("{}", e)))
}

} // verus!
