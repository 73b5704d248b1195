//! The three protocol adapters. Each converts an inbound HTTP body to wire
//! bytes through its channel's external codec, and converts the bytes of a
//! completed exchange back to an HTTP body, classifying every failure along
//! the way: a decode failure is a parse error, an encode failure a
//! serialization error, and an exchange failure is passed through as it was
//! classified by the engine.
//!
//! The DHI channel frames its responses with a fixed five-byte length
//! prefix; the adapter discards exactly those bytes and hands the codec the
//! remainder unchanged. The other adapters hand the codec the raw exchange
//! bytes unchanged.

use vstd::prelude::*;
use crate::codec::build_dhi_request;
use crate::codec::build_sigma_wire;
use crate::codec::dhi_request_buildable;
use crate::codec::dhi_response_accepts;
use crate::codec::is_rejected;
use crate::codec::parse_dhi_response;
use crate::codec::recode_sigma_response;
use crate::codec::serialize_dhi_request;
use crate::codec::serialize_dhi_response;
use crate::codec::serialize_sp_request;
use crate::codec::serialize_sp_response;
use crate::codec::assign_sp_message_id;
use crate::codec::sigma_request_buildable;
use crate::codec::sigma_response_accepts;
use crate::codec::sigma_response_recodable;
use crate::codec::SigmaWireError;
use crate::codec::SIGMA_MAX_BODY_BYTES;
use crate::errors::AppError;
use crate::errors::is_parse;
use crate::errors::is_serialize;
use crate::exchange::ExchangeOutcome;
use crate::exchange::EXCHANGE_BUFFER_CAPACITY;

verus! {

/// Length of the non-payload prefix a DHI backend response starts with.
pub const DHI_LENGTH_PREFIX_BYTES: usize = 5;

/// A raw DHI backend response is decodable when it covers its length prefix
/// and the codec accepts what follows the prefix - the first five bytes
/// never take part in decoding.
pub open spec fn dhi_response_decodable(raw: Seq<u8>) -> bool {
    raw.len() >= DHI_LENGTH_PREFIX_BYTES && dhi_response_accepts(
        raw.subrange(DHI_LENGTH_PREFIX_BYTES as int, raw.len() as int),
    )
}

/// Builds the DHI wire message for an inbound JSON body: build the domain
/// request from the body, then serialize it. A body that does not build a
/// request - malformed JSON, or a document that is not an object - is
/// classified as a parse failure, exactly then; an encode failure as a
/// serialization failure.
pub fn prepare_dhi_request(body: &Vec<u8>) -> (r: Result<String, AppError>)
    ensures
        r is Ok ==> dhi_request_buildable(body@) && (r->Ok_0)@.len() >= 5,
        r is Err ==> is_parse(r->Err_0) || is_serialize(r->Err_0),
        (r is Err && is_parse(r->Err_0)) <==> !dhi_request_buildable(body@),
{
    match build_dhi_request(body) {
        Err(detail) => Err(AppError::ParseError(detail)),
        Ok(req) => match serialize_dhi_request(&req) {
            Err(detail) => Err(AppError::SerializeError(detail)),
            Ok(msg) => Ok(msg),
        },
    }
}

/// Discards the fixed-length non-payload prefix of a raw backend response,
/// returning the remaining bytes unchanged. A response too short to carry
/// its prefix is a parse failure.
pub fn strip_length_prefix(raw: &Vec<u8>) -> (r: Result<Vec<u8>, AppError>)
    ensures
        raw@.len() >= DHI_LENGTH_PREFIX_BYTES ==> r is Ok && (r->Ok_0)@ == raw@.subrange(
            DHI_LENGTH_PREFIX_BYTES as int,
            raw@.len() as int,
        ),
        raw@.len() < DHI_LENGTH_PREFIX_BYTES ==> r is Err && is_parse(r->Err_0),
{
    if raw.len() < DHI_LENGTH_PREFIX_BYTES {
        Err(AppError::ParseError(String::from_str("response shorter than its length prefix")))
    } else {
        let mut payload: Vec<u8> = Vec::new();
        let mut i: usize = DHI_LENGTH_PREFIX_BYTES;
        while i < raw.len()
            invariant
                DHI_LENGTH_PREFIX_BYTES <= i <= raw@.len(),
                payload@ == raw@.subrange(DHI_LENGTH_PREFIX_BYTES as int, i as int),
            decreases raw@.len() - i,
        {
            payload.push(raw[i]);
            i = i + 1;
            proof {
                assert(payload@ =~= raw@.subrange(DHI_LENGTH_PREFIX_BYTES as int, i as int));
            }
        }
        proof {
            assert(payload@ =~= raw@.subrange(DHI_LENGTH_PREFIX_BYTES as int, raw@.len() as int));
        }
        Ok(payload)
    }
}

/// Turns the raw bytes of a completed DHI exchange into the outbound HTTP
/// body: strip the five-byte prefix, decode the remainder through the codec
/// untouched, serialize the domain response. The result is the serialized
/// response exactly when the response is decodable from the bytes after the
/// prefix, and a parse failure exactly otherwise - response serialization
/// cannot fail.
pub fn handle_dhi_response(raw: &Vec<u8>) -> (r: Result<String, AppError>)
    ensures
        r is Ok <==> dhi_response_decodable(raw@),
        r is Err ==> is_parse(r->Err_0),
{
    match strip_length_prefix(raw) {
        Err(e) => Err(e),
        Ok(payload) => match parse_dhi_response(&payload) {
            Err(detail) => Err(AppError::ParseError(detail)),
            Ok(resp) => match serialize_dhi_response(&resp) {
                Err(detail) => Err(AppError::SerializeError(detail)),
                Ok(body) => Ok(body),
            },
        },
    }
}

/// Finishes one DHI request: a failed exchange keeps its classification, a
/// completed one is decoded from its raw bytes, successfully exactly when
/// the response is decodable.
pub fn finish_dhi_exchange(o: ExchangeOutcome) -> (r: Result<String, AppError>)
    ensures
        o is Failure ==> r is Err && r->Err_0 == o->Failure_0,
        o is Response ==> (r is Ok <==> dhi_response_decodable((o->Response_0)@)),
        o is Response ==> (r is Err ==> is_parse(r->Err_0)),
{
    match o {
        ExchangeOutcome::Failure(e) => Err(e),
        ExchangeOutcome::Response(raw) => handle_dhi_response(&raw),
    }
}

/// Builds the SP wire message from the outcome of the codec's parse of the
/// inbound XML body. The parse itself stands outside the library: its
/// generated field readers abort on some inputs, so the caller performs the
/// call, contains any abort, and hands the outcome in. A parsed request
/// gets a freshly generated message identifier and is serialized - which
/// cannot fail, so the message is produced exactly when the body parsed; a
/// parse failure is classified as a parse error, with its detail kept.
pub fn prepare_sp_request(parsed: Result<sp_xml::SPRequest, String>) -> (r: Result<
    String,
    AppError,
>)
    ensures
        r is Ok <==> parsed is Ok,
        parsed matches Err(detail) ==> r == Err::<String, AppError>(AppError::ParseError(detail)),
{
    match parsed {
        Err(detail) => Err(AppError::ParseError(detail)),
        Ok(mut req) => {
            assign_sp_message_id(&mut req);
            match serialize_sp_request(&req) {
                Err(detail) => Err(AppError::SerializeError(detail)),
                Ok(msg) => Ok(msg),
            }
        },
    }
}

/// Turns the outcome of the codec's parse of a completed SP exchange's raw
/// bytes into the outbound HTTP body. As with the request, the parse stands
/// outside the library and its outcome is handed in; the caller gives the
/// codec the exchange bytes unchanged. A parsed response is serialized -
/// which cannot fail, so the body is produced exactly when the bytes
/// parsed; a parse failure is classified as a parse error, with its detail
/// kept.
pub fn handle_sp_response(parsed: Result<sp_xml::SPResponse, String>) -> (r: Result<
    String,
    AppError,
>)
    ensures
        r is Ok <==> parsed is Ok,
        parsed matches Err(detail) ==> r == Err::<String, AppError>(AppError::ParseError(detail)),
{
    match parsed {
        Err(detail) => Err(AppError::ParseError(detail)),
        Ok(resp) => match serialize_sp_response(&resp) {
            Err(detail) => Err(AppError::SerializeError(detail)),
            Ok(body) => Ok(body),
        },
    }
}

/// Builds the Sigma wire message for an inbound JSON body. A body the codec
/// does not accept - malformed JSON, or a document the domain codec rejects -
/// is classified as a parse failure, exactly then; an encode failure, or a
/// body too long for the wire format's five-digit frame, as a serialization
/// failure.
pub fn prepare_ips_request(body: &Vec<u8>) -> (r: Result<Vec<u8>, AppError>)
    ensures
        r is Ok ==> sigma_request_buildable(body@) && (r->Ok_0)@.len() >= 5,
        r is Err ==> is_parse(r->Err_0) || is_serialize(r->Err_0),
        body@.len() > SIGMA_MAX_BODY_BYTES ==> r is Err && is_serialize(r->Err_0),
        body@.len() <= SIGMA_MAX_BODY_BYTES ==> ((r is Err && is_parse(r->Err_0))
            <==> !sigma_request_buildable(body@)),
{
    if body.len() > SIGMA_MAX_BODY_BYTES {
        return Err(AppError::SerializeError(String::from_str("request too long to frame")));
    }
    match build_sigma_wire(body) {
        Err(SigmaWireError::Rejected(detail)) => Err(AppError::ParseError(detail)),
        Err(SigmaWireError::Unencodable(detail)) => Err(AppError::SerializeError(detail)),
        Ok(msg) => Ok(msg),
    }
}

/// Turns the raw bytes of a completed Sigma exchange into the outbound HTTP
/// body: the codec decodes the raw bytes untouched, then the domain
/// response is re-encoded. The result is the re-encoded message exactly
/// when the bytes decode and re-encode; a parse failure exactly when the
/// codec does not accept the raw bytes; a serialization failure otherwise.
/// The raw bytes come from the fixed exchange buffer and cannot exceed its
/// capacity.
pub fn handle_ips_response(raw: &Vec<u8>) -> (r: Result<Vec<u8>, AppError>)
    requires
        raw@.len() <= EXCHANGE_BUFFER_CAPACITY,
    ensures
        r is Ok <==> sigma_response_recodable(raw@),
        r is Ok ==> sigma_response_accepts(raw@) && (r->Ok_0)@.len() >= 5,
        r is Err ==> is_parse(r->Err_0) || is_serialize(r->Err_0),
        (r is Err && is_parse(r->Err_0)) <==> !sigma_response_accepts(raw@),
{
    match recode_sigma_response(raw) {
        Err(SigmaWireError::Rejected(detail)) => Err(AppError::ParseError(detail)),
        Err(SigmaWireError::Unencodable(detail)) => Err(AppError::SerializeError(detail)),
        Ok(body) => Ok(body),
    }
}

/// Finishes one Sigma request: a failed exchange keeps its classification, a
/// completed one is decoded from its raw bytes, successfully exactly when
/// they decode and re-encode. A completed exchange's bytes come from the
/// fixed exchange buffer and cannot exceed its capacity.
pub fn finish_ips_exchange(o: ExchangeOutcome) -> (r: Result<Vec<u8>, AppError>)
    requires
        o matches ExchangeOutcome::Response(b) ==> b@.len() <= EXCHANGE_BUFFER_CAPACITY,
    ensures
        o is Failure ==> r is Err && r->Err_0 == o->Failure_0,
        o is Response ==> (r is Ok <==> sigma_response_recodable((o->Response_0)@)),
        o is Response ==> (r is Err ==> is_parse(r->Err_0) || is_serialize(r->Err_0)),
        o is Response ==> ((r is Err && is_parse(r->Err_0)) <==> !sigma_response_accepts(
            (o->Response_0)@,
        )),
{
    match o {
        ExchangeOutcome::Failure(e) => Err(e),
        ExchangeOutcome::Response(raw) => handle_ips_response(&raw),
    }
}

} // verus!
