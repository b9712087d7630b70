use base64::Engine;
use vstd::prelude::*;

use crate::document::{DidDocumentModel, DidDocumentSov};
use crate::document_json::{did_doc_from_json, did_doc_to_json, doc_json, doc_of, doc_valid};
use crate::error::{AriesVcxError, AriesVcxErrorKind};
use crate::json::JsonValue;
use crate::legacy::{from_legacy_did_doc_to_sov, legacy_attached_doc, legacy_did_doc_from_json};

verus! {

/// How an attachment carries its payload.
#[derive(Debug, PartialEq, Eq)]
pub enum AttachmentType {
    /// The payload as JSON.
    Json(JsonValue),
    /// A base64 payload, as the JSON value that its decoded text holds
    /// (see `decode_base64_payload`).
    Base64(JsonValue),
    /// The payload is only linked to.
    Links(Vec<String>),
}

#[derive(Debug, PartialEq, Eq)]
pub struct AttachmentData {
    pub content: AttachmentType,
}

/// A payload attached to a protocol message.
#[derive(Debug, PartialEq, Eq)]
pub struct Attachment {
    pub data: AttachmentData,
}

/// The bytes that a standard (padded) base64 text stands for; `None` when
/// the text is not such base64.
pub uninterp spec fn base64_decoding(s: Seq<char>) -> Option<Seq<u8>>;

/// Relies on `base64::engine::general_purpose::STANDARD.decode`: the bytes of
/// a standard base64 text, or an error when the text is not standard base64.
#[verifier::external_body]
fn decode_base64(s: &str) -> (r: Option<Vec<u8>>)
    ensures
        match r {
            Some(v) => base64_decoding(s@) == Some(v@),
            None => base64_decoding(s@) is None,
        },
{
    base64::engine::general_purpose::STANDARD.decode(s).ok()
}

/// Decodes the text of a base64 attachment into the bytes of its payload;
/// fails with `SerializationError` when the text is not base64.
pub fn decode_base64_payload(text: &str) -> (r: Result<Vec<u8>, AriesVcxError>)
    ensures
        match base64_decoding(text@) {
            Some(b) => r matches Ok(v) && v@ == b,
            None => r matches Err(e) && e.kind == AriesVcxErrorKind::SerializationError,
        },
{
    match decode_base64(text) {
        Some(v) => Ok(v),
        None => Err(AriesVcxError::from_msg(
            AriesVcxErrorKind::SerializationError,
            "attachment is not base 64 encoded",
        )),
    }
}

/// The DID document that an attachment carries, if it carries one.
pub open spec fn attached_doc(a: Attachment) -> Option<DidDocumentModel> {
    match a.data.content {
        AttachmentType::Json(j) => doc_of(j@),
        AttachmentType::Base64(j) => match doc_of(j@) {
            Some(d) => Some(d),
            None => legacy_attached_doc(j@),
        },
        AttachmentType::Links(_) => None,
    }
}

/// Wraps the JSON form of a document as a JSON attachment.
pub fn ddo_sov_to_attach(ddo: &DidDocumentSov) -> (r: Attachment)
    ensures
        r.data.content matches AttachmentType::Json(j) && j@ == doc_json(ddo@),
        doc_valid(ddo@),
{
    Attachment { data: AttachmentData { content: AttachmentType::Json(did_doc_to_json(ddo)) } }
}

/// Reads the DID document that an attachment carries. A base64 payload
/// that is no document is read as a document of the older format and
/// converted. Fails with `SerializationError` when the payload is no
/// document and with `InvalidJson` when the payload is only linked to.
pub fn attach_to_ddo_sov(attachment: &Attachment) -> (r: Result<DidDocumentSov, AriesVcxError>)
    ensures
        match attached_doc(*attachment) {
            Some(m) => r matches Ok(d) && d@ == m,
            None => r matches Err(e) && (if attachment.data.content is Links {
                e.kind == AriesVcxErrorKind::InvalidJson
            } else {
                e.kind == AriesVcxErrorKind::SerializationError
            }),
        },
{
    match &attachment.data.content {
        AttachmentType::Json(j) => did_doc_from_json(j),
        AttachmentType::Base64(j) => match did_doc_from_json(j) {
            Ok(d) => Ok(d),
            Err(e) => match legacy_did_doc_from_json(j) {
                Some(l) => match from_legacy_did_doc_to_sov(l) {
                    Ok(d) => Ok(d),
                    Err(_) => Err(e),
                },
                None => Err(e),
            },
        },
        AttachmentType::Links(_) => Err(
            AriesVcxError::from_msg(AriesVcxErrorKind::InvalidJson, "attachment is only linked to"),
        ),
    }
}

} // verus!
