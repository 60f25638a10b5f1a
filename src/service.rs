use bytes::Bytes;
use vstd::prelude::*;

use crate::blob::blob_len;
use crate::credentials::{authorized, ClientId, Credentials, CredentialsTable, Token};

verus! {

/// A data-plane request from a client. `R` is the reply slot on which a
/// download expects the global weights.
pub enum Request<R> {
    Upload(Credentials, Bytes),
    Download(Credentials, R),
}

/// A command from the coordinator. `S` is the reply slot on which the
/// coordinator waits for an acknowledgement.
pub enum RpcRequest<S> {
    Select(ClientId, Token, S),
    Aggregate(S),
}

/// What the event loop has to do after a data-plane request.
pub enum ApiEffect<R> {
    /// Send a clone of the current global weights on the reply slot.
    SendGlobalWeights(R),
    /// Hand the weights to the aggregator, then report to the coordinator
    /// whether this client's contribution was accepted.
    AddWeights(ClientId, Bytes),
    /// The credentials did not match: the request is dropped, and with it
    /// any reply slot, which the caller sees as closed.
    Rejected,
}

/// What the event loop has to do after a coordinator command.
pub enum RpcEffect<S> {
    /// Acknowledge the command on its reply slot.
    Acknowledge(S),
    /// Start an aggregation and track it, together with the reply slot,
    /// through `ServiceState::begin_aggregation`.
    StartAggregation(S),
}

/// How the in-flight aggregation was found when it was polled.
pub enum AggregationPoll {
    /// Not finished yet.
    Pending,
    /// Finished with these new global weights.
    Published(Bytes),
    /// Finished with an error.
    Failed,
}

/// The effect of a data-plane request on a table of credentials.
pub open spec fn api_effect<R>(m: Map<u128, u128>, request: Request<R>) -> ApiEffect<R> {
    match request {
        Request::Download(c, slot) => if authorized(m, c) {
            ApiEffect::SendGlobalWeights(slot)
        } else {
            ApiEffect::Rejected
        },
        Request::Upload(c, w) => if authorized(m, c) {
            ApiEffect::AddWeights(c.0, w)
        } else {
            ApiEffect::Rejected
        },
    }
}

/// The table of credentials after a coordinator command.
pub open spec fn rpc_table<S>(m: Map<u128, u128>, request: RpcRequest<S>) -> Map<u128, u128> {
    match request {
        RpcRequest::Select(id, token, _) => m.insert(id.0, token.0),
        RpcRequest::Aggregate(_) => Map::empty(),
    }
}

/// The effect of a coordinator command.
pub open spec fn rpc_effect<S>(request: RpcRequest<S>) -> RpcEffect<S> {
    match request {
        RpcRequest::Select(_, _, slot) => RpcEffect::Acknowledge(slot),
        RpcRequest::Aggregate(slot) => RpcEffect::StartAggregation(slot),
    }
}

/// The global weights after an aggregation was polled: the published
/// weights, whole, or the previous ones.
pub open spec fn global_after(g: Bytes, poll: AggregationPoll) -> Bytes {
    match poll {
        AggregationPoll::Published(w) => w,
        _ => g,
    }
}

/// The state that the event loop owns alone: the credentials of the
/// current round, the global weights, and the in-flight aggregation `T`
/// (the aggregation's future together with its reply slot), of which
/// there is at most one.
pub struct ServiceState<T> {
    table: CredentialsTable,
    global_weights: Bytes,
    aggregation: Option<T>,
}

impl<T> ServiceState<T> {
    /// The credentials table, client id to token.
    pub closed spec fn table(&self) -> Map<u128, u128> {
        self.table@
    }

    /// The current global weights.
    pub closed spec fn global(&self) -> Bytes {
        self.global_weights
    }

    /// The in-flight aggregation, if any.
    pub closed spec fn tracker(&self) -> Option<T> {
        self.aggregation
    }

    /// The number of in-flight aggregations.
    pub open spec fn in_flight(&self) -> nat {
        if self.tracker() is Some {
            1
        } else {
            0
        }
    }

    /// The state at startup: nobody selected, empty global weights, no
    /// aggregation.
    pub fn new() -> (r: ServiceState<T>)
        ensures
            r.table() == Map::<u128, u128>::empty(),
            blob_len(r.global()) == 0,
            r.tracker() is None,
    {
        ServiceState {
            table: CredentialsTable::new(),
            global_weights: Bytes::new(),
            aggregation: None,
        }
    }

    /// The current global weights.
    pub fn global_weights(&self) -> (r: &Bytes)
        ensures
            *r == self.global(),
    {
        &self.global_weights
    }

    /// Whether an aggregation is in flight.
    pub fn is_aggregating(&self) -> (r: bool)
        ensures
            r == (self.tracker() is Some),
    {
        self.aggregation.is_some()
    }

    /// Whether the presented credentials are those of a client selected
    /// for the current round.
    pub fn is_authorized(&self, c: &Credentials) -> (r: bool)
        ensures
            r == authorized(self.table(), *c),
    {
        self.table.is_authorized(c)
    }

    /// Decides a data-plane request. A download or an upload is honoured
    /// exactly when its credentials match the table; the state is not
    /// changed either way.
    pub fn dispatch_request<R>(&self, request: Request<R>) -> (r: ApiEffect<R>)
        ensures
            r == api_effect(self.table(), request),
    {
        match request {
            Request::Download(c, slot) => {
                if self.table.is_authorized(&c) {
                    ApiEffect::SendGlobalWeights(slot)
                } else {
                    ApiEffect::Rejected
                }
            },
            Request::Upload(c, w) => {
                if self.table.is_authorized(&c) {
                    ApiEffect::AddWeights(c.0, w)
                } else {
                    ApiEffect::Rejected
                }
            },
        }
    }

    /// Applies a coordinator command. `Select` admits one client for the
    /// current round; `Aggregate` clears the table, so that the round's
    /// credentials are refused from now on, and asks for an aggregation to
    /// be started.
    pub fn dispatch_rpc<S>(&mut self, request: RpcRequest<S>) -> (r: RpcEffect<S>)
        ensures
            final(self).table() == rpc_table(old(self).table(), request),
            final(self).global() == old(self).global(),
            final(self).tracker() == old(self).tracker(),
            r == rpc_effect(request),
    {
        match request {
            RpcRequest::Select(id, token, slot) => {
                self.table.select(id, token);
                RpcEffect::Acknowledge(slot)
            },
            RpcRequest::Aggregate(slot) => {
                self.table.clear();
                RpcEffect::StartAggregation(slot)
            },
        }
    }

    /// Tracks a freshly started aggregation. One that was still in flight
    /// is replaced and handed back, so that it can be dropped.
    pub fn begin_aggregation(&mut self, tracker: T) -> (r: Option<T>)
        ensures
            final(self).tracker() == Some(tracker),
            r == old(self).tracker(),
            final(self).table() == old(self).table(),
            final(self).global() == old(self).global(),
    {
        let previous = self.aggregation.take();
        self.aggregation = Some(tracker);
        previous
    }

    /// Takes the in-flight aggregation out so that it can be polled; it
    /// comes back through `settle_aggregation`.
    pub fn take_aggregation(&mut self) -> (r: Option<T>)
        ensures
            r == old(self).tracker(),
            final(self).tracker() is None,
            final(self).table() == old(self).table(),
            final(self).global() == old(self).global(),
    {
        self.aggregation.take()
    }

    /// Records how a polled aggregation was found. A pending one is kept;
    /// a published one replaces the global weights whole and is handed
    /// back, so that its reply slot can be acknowledged; a failed one is
    /// dropped, which closes its reply slot and leaves the global weights
    /// as they were.
    pub fn settle_aggregation(&mut self, tracker: T, poll: AggregationPoll) -> (r: Option<T>)
        ensures
            final(self).table() == old(self).table(),
            final(self).global() == global_after(old(self).global(), poll),
            match poll {
                AggregationPoll::Pending => {
                    &&& final(self).tracker() == Some(tracker)
                    &&& final(self).global() == old(self).global()
                    &&& r is None
                },
                AggregationPoll::Published(w) => {
                    &&& final(self).tracker() == old(self).tracker()
                    &&& final(self).global() == w
                    &&& r == Some(tracker)
                },
                AggregationPoll::Failed => {
                    &&& final(self).tracker() == old(self).tracker()
                    &&& final(self).global() == old(self).global()
                    &&& r is None
                },
            },
    {
        match poll {
            AggregationPoll::Pending => {
                self.aggregation = Some(tracker);
                None
            },
            AggregationPoll::Published(w) => {
                self.global_weights = w;
                Some(tracker)
            },
            AggregationPoll::Failed => None,
        }
    }
}

/// The credentials presented with a data-plane request.
pub open spec fn request_credentials<R>(request: Request<R>) -> Credentials {
    match request {
        Request::Upload(c, _) => c,
        Request::Download(c, _) => c,
    }
}

/// A request whose credentials are not in the table is rejected: a download
/// gets no weights, and an upload never reaches the aggregator.
pub proof fn lemma_unauthorized_rejected<R>(m: Map<u128, u128>, request: Request<R>)
    requires
        !authorized(m, request_credentials(request)),
    ensures
        api_effect(m, request) is Rejected,
        !(api_effect(m, request) is AddWeights),
        !(api_effect(m, request) is SendGlobalWeights),
{
}

/// Right after `Aggregate` the table is empty, and every data-plane request
/// handled before the next `Select` is rejected, whatever its credentials
/// (handling a data-plane request leaves the table as it is).
pub proof fn lemma_table_clearance<S, R>(m: Map<u128, u128>, slot: S, requests: Seq<Request<R>>)
    ensures
        rpc_table(m, RpcRequest::Aggregate(slot)) == Map::<u128, u128>::empty(),
        forall|i: int|
            0 <= i < requests.len() ==> (#[trigger] api_effect(
                rpc_table(m, RpcRequest::Aggregate(slot)),
                requests[i],
            )) is Rejected,
{
}

/// The global weights are replaced whole: after an aggregation is polled
/// they are either those served before or exactly those it published,
/// never anything else.
pub proof fn lemma_artifact_atomicity(g: Bytes, poll: AggregationPoll)
    ensures
        global_after(g, poll) == g || (poll is Published && global_after(g, poll) == poll->0),
        poll is Failed ==> global_after(g, poll) == g,
{
}

/// A `Select` issued before an `Aggregate` does not carry over into the
/// next round: after `Select(a)`, `Aggregate`, `Select(b)` only `b` is
/// admitted.
pub proof fn lemma_select_after_aggregate<S>(
    m: Map<u128, u128>,
    a: RpcRequest<S>,
    done: S,
    b_id: ClientId,
    b_token: Token,
    b_slot: S,
    c: Credentials,
)
    requires
        a is Select,
    ensures
        authorized(
            rpc_table(
                rpc_table(rpc_table(m, a), RpcRequest::Aggregate(done)),
                RpcRequest::Select(b_id, b_token, b_slot),
            ),
            c,
        ) <==> c.0 == b_id && c.1 == b_token,
{
}

/// The service owns no more than one in-flight aggregation at any time.
pub proof fn lemma_at_most_one_aggregation<T>(s: ServiceState<T>)
    ensures
        s.in_flight() <= 1,
{
}

/// An accepted request is answered from the table as it stands: a download
/// is sent the current global weights, an upload goes to the aggregator
/// under the presenting client's id, with the weights it brought.
pub proof fn lemma_authorized_served<R>(m: Map<u128, u128>, request: Request<R>)
    requires
        authorized(m, request_credentials(request)),
    ensures
        match request {
            Request::Download(_, slot) => api_effect(m, request) == ApiEffect::SendGlobalWeights(
                slot,
            ),
            Request::Upload(c, w) => api_effect(m, request) == ApiEffect::<R>::AddWeights(c.0, w),
        },
{
}

/// What the coordinator is told about one accepted upload: the client, and
/// whether the aggregator accepted its weights.
pub fn training_outcome<E>(id: ClientId, added: &Result<(), E>) -> (r: (ClientId, bool))
    ensures
        r.0 == id,
        r.1 == (*added is Ok),
{
    (id, added.is_ok())
}

} // verus!
