use vstd::prelude::*;

use crate::errors::FatalError;
use vstd::slice::slice_to_vec;

verus! {

/// Correlation ids start above this value, so they never collide with
/// identifier spaces the host may use below it.
pub const RESERVED_ID_RANGE: u32 = 0x10000;

/// Offset added to a logical operation code to form the request kind put on
/// the wire, keeping request kinds apart from the other identifier
/// namespaces of the protocol.
pub const REQUEST_TYPE_OFFSET: u32 = 0x10000000;

/// The source of correlation ids: one per execution context, shared by every
/// instance it drives, so an id issued once is never issued again for the
/// life of the process.
pub struct RequestIds {
    last: u32,
}

impl RequestIds {
    /// The most recently issued id, or the top of the reserved range if none
    /// was issued yet.
    pub closed spec fn spec_last(&self) -> u32 {
        self.last
    }

    /// The source never dips back into the reserved low range.
    pub open spec fn wf(&self) -> bool {
        self.spec_last() >= RESERVED_ID_RANGE
    }

    /// A fresh source, positioned so that the first id issued lies just
    /// above the reserved range.
    pub fn new() -> (r: RequestIds)
        ensures
            r.spec_last() == RESERVED_ID_RANGE,
            r.wf(),
    {
        RequestIds { last: RESERVED_ID_RANGE }
    }
}

/// One id was drawn: the source advanced by exactly one and handed out its
/// new high-water mark.
pub open spec fn issued_step(pre: RequestIds, post: RequestIds, id: u32) -> bool {
    &&& post.spec_last() == pre.spec_last() + 1
    &&& id == post.spec_last()
}

/// Law: an id issued from a source state no earlier than another issue's
/// result is strictly larger. However many instances draw from the same
/// source, and in whatever order, no correlation id ever repeats.
pub proof fn lemma_ids_strictly_increasing(
    a: RequestIds,
    b: RequestIds,
    c: RequestIds,
    d: RequestIds,
    i: u32,
    j: u32,
)
    requires
        issued_step(a, b, i),
        issued_step(c, d, j),
        b.spec_last() <= c.spec_last(),
    ensures
        i < j,
{
}

/// Law: every id a well-formed source issues lies strictly above the
/// reserved low range.
pub proof fn lemma_ids_above_reserved(a: RequestIds, b: RequestIds, i: u32)
    requires
        a.wf(),
        issued_step(a, b, i),
    ensures
        i > RESERVED_ID_RANGE,
{
}

/// The request/response state of one bridge, as a mathematical value.
pub ghost struct BridgeState {
    pub req_type: u32,
    pub data: Option<Seq<u8>>,
    pub answer: Option<Seq<u8>>,
    pub id: u32,
    pub gas: u64,
    pub pending: bool,
}

impl BridgeState {
    /// No request is outstanding and no answer is waiting.
    pub open spec fn is_idle(self) -> bool {
        !self.pending && self.answer is None
    }

    /// A request is outstanding and not yet answered.
    pub open spec fn is_pending(self) -> bool {
        self.pending && self.answer is None
    }

    /// The outstanding request has been answered, but the answer has not
    /// yet been consumed.
    pub open spec fn is_answered(self) -> bool {
        self.pending && self.answer is Some
    }

    /// An outstanding request always has its payload recorded.
    pub open spec fn wf(self) -> bool {
        self.pending ==> self.data is Some
    }
}

/// State after a request is begun: kind and payload recorded under the
/// fresh id, any previous answer cleared.
pub open spec fn spec_begin(s: BridgeState, id: u32, req_type: u32, payload: Seq<u8>) -> BridgeState {
    BridgeState { req_type, data: Some(payload), answer: None, id, gas: s.gas, pending: true }
}

/// An answer is accepted only for the id of the currently pending request.
pub open spec fn complete_accepted(s: BridgeState, req_id: u32) -> bool {
    s.pending && req_id == s.id
}

/// State after an accepted answer: payload and cost recorded.
pub open spec fn spec_complete(s: BridgeState, answer: Seq<u8>, gas: u64) -> BridgeState {
    BridgeState { answer: Some(answer), gas, ..s }
}

/// State after the guest consumed the delivered answer: idle again.
pub open spec fn spec_consume(s: BridgeState) -> BridgeState {
    BridgeState { answer: None, pending: false, ..s }
}

/// Law: a request begun under id `id` is completed exactly by an answer
/// carrying `id` — any other id is rejected — and consuming the completed
/// answer yields precisely the delivered payload and cost, leaving the
/// bridge idle for the next request.
pub proof fn lemma_request_response_round_trip(
    s: BridgeState,
    id: u32,
    req_type: u32,
    payload: Seq<u8>,
    answer: Seq<u8>,
    gas: u64,
    other: u32,
)
    ensures
        complete_accepted(spec_begin(s, id, req_type, payload), id),
        other != id ==> !complete_accepted(spec_begin(s, id, req_type, payload), other),
        spec_complete(spec_begin(s, id, req_type, payload), answer, gas).answer == Some(answer),
        spec_complete(spec_begin(s, id, req_type, payload), answer, gas).gas == gas,
        spec_consume(spec_complete(spec_begin(s, id, req_type, payload), answer, gas)).is_idle(),
{
}

/// The synchronous request/response channel of one program instance. At
/// most one request is outstanding at any time; an answer is matched to the
/// request it belongs to by correlation id, and every mismatch is fatal.
pub struct UserHostRequester {
    req_type: u32,
    data: Option<Vec<u8>>,
    answer: Option<Vec<u8>>,
    id: u32,
    gas: u64,
    pending: bool,
}

impl View for UserHostRequester {
    type V = BridgeState;

    closed spec fn view(&self) -> BridgeState {
        BridgeState {
            req_type: self.req_type,
            data: match self.data {
                Some(v) => Some(v@),
                None => None,
            },
            answer: match self.answer {
                Some(v) => Some(v@),
                None => None,
            },
            id: self.id,
            gas: self.gas,
            pending: self.pending,
        }
    }
}

/// The host side of the boundary. `issue_request` hands the request already
/// recorded in the bridge under `id` to the host, which performs the
/// operation, delivers its answer through
/// [`UserHostRequester::set_response`] before returning, and returns the id
/// it was given; reporting a different id signals desynchronization. This
/// layer promises nothing about an implementation: callers of
/// [`UserHostRequester::send_request`] are verified against every possible
/// behaviour of the host.
pub trait Host {
    fn issue_request(&mut self, bridge: &mut UserHostRequester, id: u32) -> u32;
}

impl UserHostRequester {
    /// A fresh, idle bridge.
    pub fn default() -> (r: UserHostRequester)
        ensures
            r@ == (BridgeState {
                req_type: 0,
                data: None,
                answer: None,
                id: 0,
                gas: 0,
                pending: false,
            }),
            r@.is_idle(),
            r@.wf(),
    {
        UserHostRequester {
            req_type: 0,
            data: None,
            answer: None,
            id: 0,
            gas: 0,
            pending: false,
        }
    }

    /// Records `req_type` and `data` as the pending request under a fresh
    /// correlation id drawn from `ids`, clears any previous answer, and
    /// returns the id. Never fails.
    pub fn set_request(&mut self, ids: &mut RequestIds, req_type: u32, data: &[u8]) -> (id: u32)
        requires
            old(ids).spec_last() < u32::MAX,
        ensures
            issued_step(*old(ids), *final(ids), id),
            final(self)@ == spec_begin(old(self)@, id, req_type, data@),
            final(self)@.is_pending(),
            final(self)@.wf(),
    {
        ids.last = ids.last + 1;
        self.id = ids.last;
        self.req_type = req_type;
        self.data = Some(slice_to_vec(data));
        self.answer = None;
        self.pending = true;
        self.id
    }

    /// Delivers the host's answer for request `req_id`. Accepted exactly
    /// while that request is outstanding; an answer carrying any other id,
    /// or arriving while nothing is outstanding, means host and guest have
    /// desynchronized, which is fatal.
    pub fn set_response(&mut self, req_id: u32, data: Vec<u8>, gas: u64) -> (r: Result<
        (),
        FatalError,
    >)
        ensures
            r is Ok <==> complete_accepted(old(self)@, req_id),
            r is Ok ==> final(self)@ == spec_complete(old(self)@, data@, gas)
                && final(self)@.is_answered(),
            r is Err ==> final(self)@ == old(self)@ && r == Err::<(), FatalError>(
                FatalError::ProtocolDesync,
            ),
    {
        if !self.pending || req_id != self.id {
            return Err(FatalError::ProtocolDesync);
        }
        self.answer = Some(data);
        self.gas = gas;
        Ok(())
    }

    /// The host's view of the outstanding request: returns its kind and
    /// payload, provided `id` names the request that is actually pending.
    pub fn get_request(&self, id: u32) -> (r: Result<(u32, Vec<u8>), FatalError>)
        requires
            self@.wf(),
        ensures
            r is Ok <==> complete_accepted(self@, id),
            (r matches Ok(t) ==> t.0 == self@.req_type && Some(t.1@) == self@.data),
            r is Err ==> r == Err::<(u32, Vec<u8>), FatalError>(FatalError::ProtocolDesync),
    {
        if !self.pending || id != self.id {
            return Err(FatalError::ProtocolDesync);
        }
        match &self.data {
            Some(v) => Ok((self.req_type, slice_to_vec(v.as_slice()))),
            None => {
                // a pending request always carries its payload
                assert(false);
                Err(FatalError::ProtocolDesync)
            },
        }
    }

    /// The single entry point guest code uses to invoke a host operation:
    /// records the request under a fresh id, hands it to the host, checks
    /// that the id the host reports back matches the one sent, and returns
    /// the delivered answer and cost, leaving the bridge idle.
    ///
    /// Exactly one id is consumed whatever the host does. A host that
    /// reports a foreign id, or returns without having delivered an answer,
    /// is fatal.
    pub fn send_request<H: Host>(
        &mut self,
        ids: &mut RequestIds,
        host: &mut H,
        req_type: u32,
        data: Vec<u8>,
    ) -> (r: Result<(Vec<u8>, u64), FatalError>)
        requires
            old(ids).spec_last() < u32::MAX,
        ensures
            final(ids).spec_last() == old(ids).spec_last() + 1,
            r is Ok ==> final(self)@.is_idle() && final(self)@.wf(),
            (r matches Ok(p) ==> p.1 == final(self)@.gas),
            r is Err ==> r == Err::<(Vec<u8>, u64), FatalError>(FatalError::ProtocolDesync),
    {
        let req_id: u32 = self.set_request(ids, req_type, data.as_slice());
        let got_id: u32 = host.issue_request(self, req_id);
        if got_id != req_id {
            return Err(FatalError::ProtocolDesync);
        }
        self.pending = false;
        match self.answer.take() {
            Some(answer) => {
                let gas: u64 = self.gas;
                Ok((answer, gas))
            },
            None => Err(FatalError::ProtocolDesync),
        }
    }

    /// Dispatches one logical host operation: the operation code is moved
    /// into the request-kind namespace by [`REQUEST_TYPE_OFFSET`] and sent
    /// as a request.
    pub fn handle_request<H: Host>(
        &mut self,
        ids: &mut RequestIds,
        host: &mut H,
        op_code: u32,
        req_data: &[u8],
    ) -> (r: Result<(Vec<u8>, u64), FatalError>)
        requires
            old(ids).spec_last() < u32::MAX,
            op_code <= u32::MAX - REQUEST_TYPE_OFFSET,
        ensures
            final(ids).spec_last() == old(ids).spec_last() + 1,
            r is Ok ==> final(self)@.is_idle(),
            r is Err ==> r == Err::<(Vec<u8>, u64), FatalError>(FatalError::ProtocolDesync),
    {
        self.send_request(ids, host, op_code + REQUEST_TYPE_OFFSET, slice_to_vec(req_data))
    }
}

} // verus!
