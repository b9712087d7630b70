use vstd::prelude::*;

use crate::attachment::{attached_doc, Attachment, AttachmentType};
use crate::document::DidDocumentModel;
use crate::document_json::{doc_json, doc_valid, lemma_doc_round_trip};
use crate::document::DidDocumentSov;
use crate::exchange::{counterparty_doc, is_request_for};
use crate::messages::Request;
use crate::protocol::{request_pthid, Abandoned, ResponseSent};

verus! {

/// Reading back the JSON attachment of a document gives the document.
pub proof fn lemma_attachment_round_trip(doc: DidDocumentModel, a: Attachment)
    requires
        doc_valid(doc),
        a.data.content matches AttachmentType::Json(j) && j@ == doc_json(doc),
    ensures
        attached_doc(a) == Some(doc),
{
    lemma_doc_round_trip(doc);
}

/// The JSON form of a document whose DIDs are DIDs, attached, reads back
/// as the document.
pub proof fn lemma_attachment_round_trip_model(doc: DidDocumentModel)
    requires
        doc_valid(doc),
    ensures
        forall|a: Attachment|
            a.data.content matches AttachmentType::Json(j) && j@ == doc_json(doc) ==> #[trigger] attached_doc(a)
                == Some(doc),
{
    lemma_doc_round_trip(doc);
}

/// A request that the requester built for an invitation is one that the
/// responder for that invitation accepts: it names the invitation as its
/// parent thread, and the document it attaches reads back as the
/// requester's document, whatever the resolver gave. So `receive_request`
/// answers it, with a response whose `thid` is the request's id.
pub proof fn lemma_request_answered(
    request: Request,
    request_id: Seq<char>,
    invitation_id: Seq<char>,
    our_did: Seq<char>,
    our_doc: DidDocumentModel,
    resolved: Option<DidDocumentSov>,
)
    requires
        is_request_for(request, request_id, invitation_id, our_did, Some(our_doc)),
    ensures
        request_pthid(request) == Some(invitation_id),
        counterparty_doc(request.did_doc, resolved) == Some(our_doc),
        request.id@ == request_id,
{
    lemma_attachment_round_trip(our_doc, request.did_doc->Some_0);
}

/// What abandoning a waiting responder with a reason leaves.
pub open spec fn abandons(before: ResponseSent, reason: Seq<char>, after: Abandoned) -> bool {
    after.reason@ == reason && after.request_id@ == before.request_id@
}

/// Abandoning two copies of one waiting responder with the same reason
/// leaves equal abandoned states: same reason, same thread id.
pub proof fn lemma_fail_same_outcome(
    a: ResponseSent,
    b: ResponseSent,
    reason: Seq<char>,
    after_a: Abandoned,
    after_b: Abandoned,
)
    requires
        a.request_id@ == b.request_id@,
        a.invitation_id@ == b.invitation_id@,
        abandons(a, reason, after_a),
        abandons(b, reason, after_b),
    ensures
        after_a.reason@ == after_b.reason@,
        after_a.request_id@ == after_b.request_id@,
{
}

} // verus!
