use vstd::prelude::*;

use crate::document::DidDocumentSov;
use crate::error::{AriesVcxError, AriesVcxErrorKind};
use crate::exchange::{
    config_accepted, counterparty_doc, pairwise_outcome, public_outcome, request_error,
    request_outcome, request_refusal, requester_completes, responder_completes, response_outcome,
    response_refusal, ConstructRequestConfig, PairwiseConstructRequestConfig,
    PublicConstructRequestConfig, ReceiveRequestConfig,
};
use crate::key::base58_decoding;
use crate::messages::new_message_id;
use crate::out_of_band::offers_didexchange;
use crate::generic::{GenericDidExchange, RequesterState, ResponderState};
use crate::messages::{Complete, Request, Response};
use crate::protocol::binds;

verus! {

/// `i` is the first position that holds an exchange under `id`.
pub open spec fn is_first_at(v: Seq<(String, GenericDidExchange)>, id: Seq<char>, i: int) -> bool {
    &&& 0 <= i < v.len()
    &&& v[i].0@ == id
    &&& forall|j: int| 0 <= j < i ==> (#[trigger] v[j]).0@ != id
}

proof fn lemma_first_at_unique(v: Seq<(String, GenericDidExchange)>, id: Seq<char>, i: int, k: int)
    requires
        is_first_at(v, id, i),
        is_first_at(v, id, k),
    ensures
        i == k,
{
    if i < k {
        assert(v[i].0@ != id);
    } else if k < i {
        assert(v[k].0@ != id);
    }
}

pub open spec fn lookup(v: Seq<(String, GenericDidExchange)>, id: Seq<char>) -> Option<GenericDidExchange> {
    if exists|i: int| is_first_at(v, id, i) {
        Some(v[choose|i: int| is_first_at(v, id, i)].1)
    } else {
        None
    }
}

/// The exchanges in flight, each under the id that later messages name.
/// One transition at a time per id: each takes `&mut self`.
pub struct ServiceDidExchange {
    did_exchange: Vec<(String, GenericDidExchange)>,
}

impl ServiceDidExchange {
    /// The exchange kept under `id`.
    pub closed spec fn spec_get(&self, id: Seq<char>) -> Option<GenericDidExchange> {
        lookup(self.did_exchange@, id)
    }

    pub fn new() -> (r: ServiceDidExchange)
        ensures
            forall|id: Seq<char>| r.spec_get(id) is None,
    {
        ServiceDidExchange { did_exchange: Vec::new() }
    }

    fn position(&self, id: &String) -> (r: Option<usize>)
        ensures
            match r {
                Some(i) => is_first_at(self.did_exchange@, id@, i as int),
                None => forall|i: int| 0 <= i < self.did_exchange@.len() ==> (#[trigger] self.did_exchange@[i]).0@ != id@,
            },
    {
        let mut i: usize = 0;
        while i < self.did_exchange.len()
            invariant
                i <= self.did_exchange@.len(),
                forall|k: int| 0 <= k < i ==> (#[trigger] self.did_exchange@[k]).0@ != id@,
            decreases self.did_exchange@.len() - i,
        {
            if self.did_exchange[i].0 == *id {
                return Some(i);
            }
            i = i + 1;
        }
        None
    }

    /// Keeps `exchange` under `id`, in place of one kept under the same id.
    pub fn insert(&mut self, id: String, exchange: GenericDidExchange)
        ensures
            final(self).spec_get(id@) == Some(exchange),
            forall|other: Seq<char>| other != id@ ==> final(self).spec_get(other) == old(self).spec_get(other),
    {
        let ghost before = self.did_exchange@;
        let ghost key = id@;
        let ghost at: int;
        match self.position(&id) {
            Some(i) => {
                self.did_exchange.set(i, (id, exchange));
                proof {
                    at = i as int;
                }
            },
            None => {
                self.did_exchange.push((id, exchange));
                proof {
                    at = before.len() as int;
                }
            },
        }
        proof {
            let v = self.did_exchange@;
            assert(at < before.len() ==> before[at].0@ == key);
            assert forall|k: int| 0 <= k < before.len() && k != at implies v[k] == before[k] by {}
            assert(is_first_at(v, key, at));
            lemma_first_at_unique(v, key, at, choose|j: int| is_first_at(v, key, j));
            assert forall|other: Seq<char>| other != key implies lookup(v, other) == lookup(before, other) by {
                if exists|j: int| is_first_at(before, other, j) {
                    let j = choose|j: int| is_first_at(before, other, j);
                    assert(is_first_at(v, other, j));
                    lemma_first_at_unique(v, other, j, choose|k: int| is_first_at(v, other, k));
                } else if exists|j: int| is_first_at(v, other, j) {
                    let j = choose|j: int| is_first_at(v, other, j);
                    assert(is_first_at(before, other, j));
                }
            }
        }
    }

    /// Whether an exchange is kept under `thread_id`.
    pub fn exists_by_id(&self, thread_id: &String) -> (r: bool)
        ensures
            r == self.spec_get(thread_id@) is Some,
    {
        match self.position(thread_id) {
            Some(i) => true,
            None => false,
        }
    }

    /// The exchange kept under `id`; fails with `NotFound` when none is.
    pub fn get(&self, id: &String) -> (r: Result<&GenericDidExchange, AriesVcxError>)
        ensures
            match self.spec_get(id@) {
                Some(g) => r matches Ok(x) && *x == g,
                None => r matches Err(e) && e.kind == AriesVcxErrorKind::NotFound,
            },
    {
        match self.position(id) {
            Some(i) => {
                proof {
                    let v = self.did_exchange@;
                    lemma_first_at_unique(v, id@, i as int, choose|j: int| is_first_at(v, id@, j));
                }
                Ok(&self.did_exchange[i].1)
            },
            None => Err(AriesVcxError::from_msg(AriesVcxErrorKind::NotFound, "no exchange under this id")),
        }
    }

    fn keep_request(&mut self, config: ConstructRequestConfig, exchange_id: String) -> (r: Result<Request, AriesVcxError>)
        ensures
            r is Ok <==> config_accepted(config),
            r matches Ok(req) ==> final(self).spec_get(exchange_id@) matches Some(
                GenericDidExchange::Requester(RequesterState::RequestSent(s)),
            ) && request_outcome(config, req.id@, s, req),
            r matches Err(e) ==> request_error(config, e),
            forall|other: Seq<char>| other != exchange_id@ ==> final(self).spec_get(other) == old(self).spec_get(other),
            r is Err ==> forall|id: Seq<char>| final(self).spec_get(id) == old(self).spec_get(id),
    {
        match GenericDidExchange::construct_request(config) {
            Ok((exchange, request)) => {
                self.insert(exchange_id, exchange);
                Ok(request)
            },
            Err(e) => Err(e),
        }
    }

    /// Contacts a public DID and keeps the exchange under a fresh id; returns
    /// the id and the request to send.
    pub fn send_request_public(&mut self, config: PublicConstructRequestConfig) -> (r: Result<(String, Request), AriesVcxError>)
        ensures
            r is Ok <==> config.their_service.recipient_keys@.len() > 0 && base58_decoding(config.our_verkey@) is Some,
            r matches Ok((id, req)) ==> {
                &&& final(self).spec_get(id@) matches Some(GenericDidExchange::Requester(RequesterState::RequestSent(s)))
                    && public_outcome(config, req.id@, s, req)
                &&& forall|other: Seq<char>| other != id@ ==> final(self).spec_get(other) == old(self).spec_get(other)
            },
            r matches Err(e) ==> request_error(ConstructRequestConfig::Public(config), e),
            r is Err ==> forall|id: Seq<char>| final(self).spec_get(id) == old(self).spec_get(id),
    {
        let exchange_id = new_message_id();
        let id = exchange_id.clone();
        match self.keep_request(ConstructRequestConfig::Public(config), exchange_id) {
            Ok(request) => Ok((id, request)),
            Err(e) => Err(e),
        }
    }

    /// Answers an invitation and keeps the exchange under the invitation's
    /// id; returns that id and the request to send.
    pub fn send_request_pairwise(&mut self, config: PairwiseConstructRequestConfig) -> (r: Result<(String, Request), AriesVcxError>)
        ensures
            r is Ok <==> offers_didexchange(config.invitation),
            r matches Ok((id, req)) ==> {
                &&& id@ == config.invitation.id@
                &&& final(self).spec_get(id@) matches Some(GenericDidExchange::Requester(RequesterState::RequestSent(s)))
                    && pairwise_outcome(config, req.id@, s, req)
                &&& forall|other: Seq<char>| other != id@ ==> final(self).spec_get(other) == old(self).spec_get(other)
            },
            r matches Err(e) ==> e.kind == AriesVcxErrorKind::InvalidState,
            r is Err ==> forall|id: Seq<char>| final(self).spec_get(id) == old(self).spec_get(id),
    {
        let exchange_id = config.invitation.id.clone();
        let id = config.invitation.id.clone();
        match self.keep_request(ConstructRequestConfig::Pairwise(config), exchange_id) {
            Ok(request) => Ok((id, request)),
            Err(e) => Err(e),
        }
    }

    /// Answers a request and keeps the exchange under the response's thread
    /// id; returns the response to send.
    pub fn send_response(&mut self, config: ReceiveRequestConfig) -> (r: Result<Response, AriesVcxError>)
        ensures
            r is Ok <==> crate::protocol::request_pthid(config.request) == Some(config.invitation_id@)
                && counterparty_doc(config.request.did_doc, config.resolved) is Some,
            r matches Ok(resp) ==> {
                &&& final(self).spec_get(resp.thread.thid@) matches Some(
                    GenericDidExchange::Responder(ResponderState::ResponseSent(s)),
                ) && response_outcome(config, s, resp)
                &&& forall|other: Seq<char>| other != resp.thread.thid@ ==> final(self).spec_get(other) == old(
                    self,
                ).spec_get(other)
            },
            r matches Err(e) ==> request_refusal(config, e),
            r is Err ==> forall|id: Seq<char>| final(self).spec_get(id) == old(self).spec_get(id),
    {
        match GenericDidExchange::handle_request(config) {
            Ok((exchange, response)) => {
                self.insert(response.thread.thid.clone(), exchange);
                Ok(response)
            },
            Err(e) => Err(e),
        }
    }

    /// Passes a response to the exchange kept under `thread_id`, which must
    /// be a requester waiting for one, and keeps what it becomes; returns
    /// the complete message to send. Fails with `NotFound` when no exchange
    /// is kept there; a refused response leaves the store unchanged.
    pub fn send_complete(&mut self, thread_id: &String, response: Response, resolved: Option<DidDocumentSov>) -> (r: Result<Complete, AriesVcxError>)
        ensures
            old(self).spec_get(thread_id@) is None ==> (r matches Err(e) && e.kind == AriesVcxErrorKind::NotFound),
            old(self).spec_get(thread_id@) matches Some(GenericDidExchange::Requester(RequesterState::RequestSent(s)))
                ==> (r is Ok <==> response.thread.thid@ == s.spec_state().request_id@ && counterparty_doc(
                response.did_doc,
                resolved,
            ) is Some),
            old(self).spec_get(thread_id@) matches Some(g) && !(g matches GenericDidExchange::Requester(
                RequesterState::RequestSent(_),
            )) ==> (r matches Err(e) && e.kind == AriesVcxErrorKind::InvalidState),
            old(self).spec_get(thread_id@) matches Some(GenericDidExchange::Requester(RequesterState::RequestSent(s)))
                ==> (r matches Err(e) ==> response_refusal(s, response, e)),
            r matches Ok(c) ==> {
                &&& old(self).spec_get(thread_id@) matches Some(GenericDidExchange::Requester(RequesterState::RequestSent(s)))
                &&& final(self).spec_get(thread_id@) matches Some(GenericDidExchange::Requester(RequesterState::Completed(t)))
                &&& requester_completes(
                    old(self).spec_get(thread_id@)->Some_0->Requester_0->RequestSent_0,
                    response,
                    resolved,
                    final(self).spec_get(thread_id@)->Some_0->Requester_0->Completed_0,
                    c,
                )
                &&& forall|other: Seq<char>| other != thread_id@ ==> final(self).spec_get(other) == old(self).spec_get(other)
            },
            r is Err ==> forall|id: Seq<char>| final(self).spec_get(id) == old(self).spec_get(id),
    {
        let i = match self.position(thread_id) {
            Some(i) => i,
            None => {
                return Err(AriesVcxError::from_msg(AriesVcxErrorKind::NotFound, "no exchange under this id"));
            },
        };
        proof {
            let v = self.did_exchange@;
            lemma_first_at_unique(v, thread_id@, i as int, choose|j: int| is_first_at(v, thread_id@, j));
        }
        let ghost before = self.did_exchange@;
        let (id, exchange) = self.did_exchange.remove(i);
        match exchange.handle_response(response, resolved) {
            Ok((next, complete)) => {
                self.did_exchange.insert(i, (id, next));
                proof {
                    self.lemma_replaced(before, i as int, thread_id@);
                }
                Ok(complete)
            },
            Err((same, e)) => {
                self.did_exchange.insert(i, (id, same));
                assert(self.did_exchange@ =~= before);
                Err(e)
            },
        }
    }

    /// Passes a complete message to the exchange kept under `thread_id`,
    /// which must be a responder waiting for one, and keeps what it becomes.
    /// Fails with `NotFound` when no exchange is kept there; a refused
    /// message leaves the store unchanged.
    pub fn receive_complete(&mut self, thread_id: &String, complete: &Complete) -> (r: Result<(), AriesVcxError>)
        ensures
            old(self).spec_get(thread_id@) is None ==> (r matches Err(e) && e.kind == AriesVcxErrorKind::NotFound),
            old(self).spec_get(thread_id@) matches Some(GenericDidExchange::Responder(ResponderState::ResponseSent(s)))
                ==> (r is Ok <==> binds(complete.thread, s.spec_state().request_id@, s.spec_state().invitation_id@)),
            old(self).spec_get(thread_id@) matches Some(g) && !(g matches GenericDidExchange::Responder(
                ResponderState::ResponseSent(_),
            )) ==> (r matches Err(e) && e.kind == AriesVcxErrorKind::InvalidState),
            r is Ok ==> {
                &&& old(self).spec_get(thread_id@) matches Some(GenericDidExchange::Responder(ResponderState::ResponseSent(s)))
                &&& final(self).spec_get(thread_id@) matches Some(GenericDidExchange::Responder(ResponderState::Completed(t)))
                &&& responder_completes(
                    old(self).spec_get(thread_id@)->Some_0->Responder_0->ResponseSent_0,
                    final(self).spec_get(thread_id@)->Some_0->Responder_0->Completed_0,
                )
                &&& forall|other: Seq<char>| other != thread_id@ ==> final(self).spec_get(other) == old(self).spec_get(other)
            },
            r is Err ==> forall|id: Seq<char>| final(self).spec_get(id) == old(self).spec_get(id),
    {
        let i = match self.position(thread_id) {
            Some(i) => i,
            None => {
                return Err(AriesVcxError::from_msg(AriesVcxErrorKind::NotFound, "no exchange under this id"));
            },
        };
        proof {
            let v = self.did_exchange@;
            lemma_first_at_unique(v, thread_id@, i as int, choose|j: int| is_first_at(v, thread_id@, j));
        }
        let ghost before = self.did_exchange@;
        let (id, exchange) = self.did_exchange.remove(i);
        match exchange.handle_complete(complete) {
            Ok(next) => {
                self.did_exchange.insert(i, (id, next));
                proof {
                    self.lemma_replaced(before, i as int, thread_id@);
                }
                Ok(())
            },
            Err((same, e)) => {
                self.did_exchange.insert(i, (id, same));
                assert(self.did_exchange@ =~= before);
                Err(e)
            },
        }
    }

    proof fn lemma_replaced(&self, before: Seq<(String, GenericDidExchange)>, i: int, id: Seq<char>)
        requires
            is_first_at(before, id, i),
            self.did_exchange@.len() == before.len(),
            self.did_exchange@[i].0 == before[i].0,
            forall|j: int| 0 <= j < before.len() && j != i ==> self.did_exchange@[j] == before[j],
        ensures
            self.spec_get(id) == Some(self.did_exchange@[i].1),
            forall|other: Seq<char>| other != id ==> self.spec_get(other) == lookup(before, other),
    {
        let v = self.did_exchange@;
        assert forall|j: int| 0 <= j < i implies (#[trigger] v[j]).0@ != id by {
            assert(v[j] == before[j]);
        }
        assert(is_first_at(v, id, i));
        lemma_first_at_unique(v, id, i, choose|j: int| is_first_at(v, id, j));
        assert forall|other: Seq<char>| other != id implies lookup(v, other) == lookup(before, other) by {
            assert forall|j: int| 0 <= j < v.len() implies (#[trigger] v[j]).0 == before[j].0 by {
                if j != i {
                    assert(v[j] == before[j]);
                }
            }
            if exists|j: int| is_first_at(before, other, j) {
                let j = choose|j: int| is_first_at(before, other, j);
                assert(is_first_at(v, other, j));
                lemma_first_at_unique(v, other, j, choose|k: int| is_first_at(v, other, k));
                assert(j != i);
                assert(v[j] == before[j]);
            } else if exists|j: int| is_first_at(v, other, j) {
                let j = choose|j: int| is_first_at(v, other, j);
                assert(is_first_at(before, other, j));
            }
        }
    }
}

} // verus!
