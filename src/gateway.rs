//! The advisory gateway: identifier derivation, compress-on-write and
//! decompress-on-read around an object store that keeps one object per
//! identifier.
//!
//! The store itself is a collaborator reached by the caller: a lookup is
//! [`query_vex`], then the store's `get`, then [`fetch_object`]; a publish is
//! [`publish_vex`], then the store's `put` of the [`PutRequest`], then
//! [`publish_reply`].

use vstd::prelude::*;

use crate::codec::{decode, encode, zstd_content, zstd_frame, COMPRESSION_LEVEL};
use crate::reply::{
    created_reply, decimal_text, error_reply, found_reply, Body, GatewayError, Reply, ReplyModel,
    STATUS_CREATED, STATUS_OK,
};

verus! {

/// The tracking identifier (`document.tracking.id`) of the CSAF document that
/// `b` holds as JSON; `None` where `b` is no such document.
pub uninterp spec fn csaf_tracking_id(b: Seq<u8>) -> Option<Seq<char>>;

#[verifier::external_type_specification]
#[verifier::external_body]
pub struct ExJsonError(serde_json::Error);

/// Relies on `serde_json::from_slice` into `csaf::Csaf`: it succeeds exactly
/// when the bytes are a CSAF document, whose `document.tracking.id` is taken.
#[verifier::external_body]
fn parse_tracking_id(b: &[u8]) -> (r: Result<String, serde_json::Error>)
    ensures
        r matches Ok(id) ==> csaf_tracking_id(b@) == Some(id@),
        r is Err ==> csaf_tracking_id(b@) is None,
{
    match serde_json::from_slice::<csaf::Csaf>(b) {
        Ok(doc) => Ok(doc.document.tracking.id),
        Err(e) => Err(e),
    }
}

/// The parameters of a lookup.
#[derive(Debug, Clone, PartialEq, Eq)]
pub struct QueryParams {
    pub cve: Option<String>,
    pub advisory: Option<String>,
}

/// The parameters of a publish.
#[derive(Debug, Clone, PartialEq, Eq)]
pub struct PublishParams {
    pub advisory: Option<String>,
}

/// An object as the store keeps it: the bytes, and whether they are a
/// compressed frame.
#[derive(Debug, Clone, PartialEq, Eq)]
pub struct StoredObject {
    pub data: Vec<u8>,
    pub compressed: bool,
}

/// A write for the store to perform: `object` under `key`, with the
/// auxiliary attributes in `metadata`.
#[derive(Debug, Clone, PartialEq, Eq)]
pub struct PutRequest {
    pub key: String,
    pub metadata: Vec<(String, String)>,
    pub object: StoredObject,
}

/// The mathematical value of a [`StoredObject`].
pub struct ObjectModel {
    pub data: Seq<u8>,
    pub compressed: bool,
}

/// The mathematical value of a [`PutRequest`].
pub struct PutModel {
    pub key: Seq<char>,
    pub object: ObjectModel,
}

impl View for StoredObject {
    type V = ObjectModel;

    open spec fn view(&self) -> ObjectModel {
        ObjectModel { data: self.data@, compressed: self.compressed }
    }
}

impl View for PutRequest {
    type V = PutModel;

    open spec fn view(&self) -> PutModel {
        PutModel { key: self.key@, object: self.object@ }
    }
}

/// The value of an optional identifier.
pub open spec fn opt_chars(s: Option<String>) -> Option<Seq<char>> {
    match s {
        Some(s) => Some(s@),
        None => None,
    }
}

/// The value of what the store's `get` found.
pub open spec fn opt_object(o: Option<StoredObject>) -> Option<ObjectModel> {
    match o {
        Some(o) => Some(o@),
        None => None,
    }
}

/// `obj` holds `doc`: either as its compressed frame, flagged so, or as it
/// is, flagged uncompressed.
pub open spec fn holds_document(obj: ObjectModel, doc: Seq<u8>) -> bool {
    if obj.compressed {
        obj.data == zstd_frame(doc, COMPRESSION_LEVEL)
    } else {
        obj.data == doc
    }
}

/// The identifier a publish stores under: the one named, else the tracking
/// identifier of the document in the body.
pub open spec fn resolved_identifier(advisory: Option<Seq<char>>, body: Seq<u8>) -> Option<
    Seq<char>,
> {
    match advisory {
        Some(id) => Some(id),
        None => csaf_tracking_id(body),
    }
}

/// What a publish of `body` asks of the store, if anything: `r` is the write
/// of the compressed frame of `body`, flagged compressed, under the resolved
/// identifier, or, where none resolves, a malformed-input failure. No
/// metadata is attached.
pub open spec fn publish_outcome(
    advisory: Option<Seq<char>>,
    body: Seq<u8>,
    r: Result<PutRequest, GatewayError>,
) -> bool {
    match resolved_identifier(advisory, body) {
        Some(id) => r matches Ok(put) && put@.key == id && put.metadata@.len() == 0
            && put@.object == ObjectModel {
            data: zstd_frame(body, COMPRESSION_LEVEL),
            compressed: true,
        },
        None => r == Err::<PutRequest, GatewayError>(GatewayError::MalformedInput),
    }
}

/// The reply to a lookup that found `found` in the store.
pub open spec fn lookup_reply(found: Option<ObjectModel>) -> ReplyModel {
    match found {
        None => error_reply(GatewayError::NotFound),
        Some(obj) => if !obj.compressed {
            found_reply(obj.data)
        } else {
            match zstd_content(obj.data) {
                Some(doc) => found_reply(doc),
                None => error_reply(GatewayError::DecodeFailure),
            }
        },
    }
}

/// What [`fetch_object`] guarantees of its reply `r` to `found`: it is
/// [`lookup_reply`], and an object that holds a document is answered with
/// that document.
pub open spec fn lookup_outcome(found: Option<ObjectModel>, r: ReplyModel) -> bool {
    &&& r == lookup_reply(found)
    &&& match found {
        Some(obj) => forall|doc: Seq<u8>| #[trigger]
            holds_document(obj, doc) ==> r == found_reply(doc),
        None => true,
    }
}

/// Decides a lookup: the identifier to fetch, or the failure to report.
pub fn query_vex(params: QueryParams) -> (r: Result<String, GatewayError>)
    ensures
        params.advisory matches Some(a) ==> (r matches Ok(key) && key@ == a@),
        params.advisory is None && params.cve is Some ==> r == Err::<String, GatewayError>(
            GatewayError::UnsupportedQuery,
        ),
        params.advisory is None && params.cve is None ==> r == Err::<String, GatewayError>(
            GatewayError::MissingParameter,
        ),
{
    match params.advisory {
        Some(advisory) => Ok(advisory),
        None => match params.cve {
            Some(_) => Err(GatewayError::UnsupportedQuery),
            None => Err(GatewayError::MissingParameter),
        },
    }
}

/// Answers a lookup from what the store's `get` returned: `Ok(None)` where
/// it holds nothing under the identifier, `Err` with its detail where the
/// read failed. The reply is the document, decompressed where the object is
/// flagged compressed, or the failure.
pub fn fetch_object(found: Result<Option<StoredObject>, String>) -> (r: Reply)
    ensures
        found matches Ok(obj) ==> lookup_outcome(opt_object(obj), r@),
        found matches Err(detail) ==> r@ == error_reply(GatewayError::ReadFailure(detail)),
{
    match found {
        Err(detail) => GatewayError::ReadFailure(detail).reply(),
        Ok(None) => GatewayError::NotFound.reply(),
        Ok(Some(obj)) => {
            if obj.compressed {
                match decode(obj.data.as_slice()) {
                    Ok(doc) => Reply { status: STATUS_OK, body: Body::Bytes(doc) },
                    Err(_) => GatewayError::DecodeFailure.reply(),
                }
            } else {
                Reply { status: STATUS_OK, body: Body::Bytes(obj.data) }
            }
        },
    }
}

/// Decides a publish of `body`: the write for the store, or the failure.
/// The identifier is the one named, else the CSAF tracking identifier of the
/// body. The body is stored as its compressed frame; were compression to
/// fail, the body would be stored as it is, flagged uncompressed.
pub fn publish_vex(params: PublishParams, body: Vec<u8>) -> (r: Result<PutRequest, GatewayError>)
    ensures
        publish_outcome(opt_chars(params.advisory), body@, r),
{
    let key = match params.advisory {
        Some(advisory) => advisory,
        None => match parse_tracking_id(body.as_slice()) {
            Ok(id) => id,
            Err(_) => {
                return Err(GatewayError::MalformedInput);
            },
        },
    };
    let object = match encode(body.as_slice()) {
        Ok(frame) => StoredObject { data: frame, compressed: true },
        Err(_) => StoredObject { data: body, compressed: false },
    };
    Ok(PutRequest { key, metadata: Vec::new(), object })
}

/// The reply to a publish whose write of `put` ended in `outcome`: the
/// confirmation gives the size of the bytes as persisted; the object store's
/// error detail, if any, is passed on.
pub fn publish_reply(put: &PutRequest, outcome: Result<(), String>) -> (r: Reply)
    ensures
        outcome is Ok ==> r@ == created_reply(put.object.data@.len()),
        outcome matches Err(detail) ==> r@ == error_reply(GatewayError::StoreFailure(detail)),
{
    match outcome {
        Ok(()) => {
            let mut text = String::from_str("VEX of size ");
            let digits = decimal_text(put.object.data.len());
            text.append(digits.as_str());
            text.append(" stored successfully");
            Reply { status: STATUS_CREATED, body: Body::Text(text) }
        },
        Err(detail) => GatewayError::StoreFailure(detail).reply(),
    }
}

} // verus!
