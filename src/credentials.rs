use std::collections::HashMap;
use vstd::prelude::*;

verus! {

broadcast use vstd::std_specs::hash::group_hash_axioms;

/// Identifier of a client for one round.
#[derive(Clone, Copy, Debug, PartialEq, Eq, Structural, Hash)]
pub struct ClientId(pub u128);

/// Per-client, per-round secret issued by the coordinator.
#[derive(Clone, Copy, Debug, PartialEq, Eq, Structural, Hash)]
pub struct Token(pub u128);

/// What a client presents on every download and upload.
#[derive(Clone, Copy, Debug, PartialEq, Eq, Structural)]
pub struct Credentials(pub ClientId, pub Token);

impl Credentials {
    pub fn new(id: ClientId, token: Token) -> (r: Credentials)
        ensures
            r.0 == id,
            r.1 == token,
    {
        Credentials(id, token)
    }
}

/// Whether `c` matches an entry of the table `m` (client id to token).
pub open spec fn authorized(m: Map<u128, u128>, c: Credentials) -> bool {
    m.contains_key(c.0.0) && m[c.0.0] == c.1.0
}

/// The clients selected for the current round, with their tokens.
pub struct CredentialsTable {
    allowed_ids: HashMap<u128, u128>,
}

impl View for CredentialsTable {
    type V = Map<u128, u128>;

    closed spec fn view(&self) -> Map<u128, u128> {
        self.allowed_ids@
    }
}

impl CredentialsTable {
    /// An empty table: nobody is authorized.
    pub fn new() -> (r: CredentialsTable)
        ensures
            r@ == Map::<u128, u128>::empty(),
    {
        CredentialsTable { allowed_ids: HashMap::new() }
    }

    /// Admits `id` with `token`, replacing any token it had.
    pub fn select(&mut self, id: ClientId, token: Token)
        ensures
            final(self)@ == old(self)@.insert(id.0, token.0),
    {
        self.allowed_ids.insert(id.0, token.0);
    }

    /// Forgets every client: the start of a new round.
    pub fn clear(&mut self)
        ensures
            final(self)@ == Map::<u128, u128>::empty(),
    {
        self.allowed_ids.clear();
    }

    /// Whether the presented credentials match an entry of the table.
    pub fn is_authorized(&self, c: &Credentials) -> (r: bool)
        ensures
            r == authorized(self@, *c),
    {
        match self.allowed_ids.get(&c.0.0) {
            Some(expected) => *expected == c.1.0,
            None => false,
        }
    }
}

} // verus!
