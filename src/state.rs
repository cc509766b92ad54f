//! The watcher's materialised view: the token registry and the queue of
//! priority operations.
use vstd::prelude::*;

use std::collections::HashMap;

use crate::events::{PriorityOp, TokenAddedEvent};

verus! {

broadcast use vstd::std_specs::hash::group_hash_axioms;

/// Identifier of a registered token.
pub type TokenId = u16;

/// The token id that a registration's 32-bit id names: its low 16 bits.
pub open spec fn token_key(ev: TokenAddedEvent) -> TokenId {
    (ev.id % 65536) as TokenId
}

/// The registry after applying the registrations `evs` in order to `m`: each
/// sets its token id to its address, the last write winning.
pub open spec fn registry_after(m: Map<TokenId, Seq<u8>>, evs: Seq<TokenAddedEvent>) -> Map<TokenId, Seq<u8>>
    decreases evs.len(),
{
    if evs.len() == 0 {
        m
    } else {
        registry_after(m, evs.drop_last()).insert(token_key(evs.last()), evs.last().address@)
    }
}

/// Registering the same token twice leaves the registry as registering it once.
pub proof fn lemma_registration_idempotent(m: Map<TokenId, Seq<u8>>, ev: TokenAddedEvent)
    ensures
        registry_after(m, seq![ev, ev]) == registry_after(m, seq![ev]),
{
    assert(seq![ev, ev].drop_last() =~= seq![ev]);
    assert(seq![ev].drop_last() =~= Seq::<TokenAddedEvent>::empty());
    assert(registry_after(m, seq![ev]).insert(token_key(ev), ev.address@) =~= registry_after(m, seq![ev]));
}

/// Two registrations of one id leave one entry for it, holding the later address.
pub proof fn lemma_registration_last_wins(m: Map<TokenId, Seq<u8>>, a: TokenAddedEvent, b: TokenAddedEvent)
    requires
        token_key(a) == token_key(b),
    ensures
        registry_after(m, seq![a, b]) == m.insert(token_key(b), b.address@),
{
    assert(seq![a, b].drop_last() =~= seq![a]);
    assert(seq![a].drop_last() =~= Seq::<TokenAddedEvent>::empty());
    assert(seq![a].last() == a);
    assert(registry_after(m, Seq::<TokenAddedEvent>::empty()) == m);
    assert(registry_after(m, seq![a]) == m.insert(token_key(a), a.address@));
    assert(seq![a, b].last() == b);
    assert(m.insert(token_key(a), a.address@).insert(token_key(b), b.address@) =~= m.insert(
        token_key(b),
        b.address@,
    ));
}

/// Registry and priority queue. The queue only grows.
#[derive(Debug)]
pub struct ETHState {
    pub tokens: HashMap<TokenId, Vec<u8>>,
    pub priority_queue: Vec<PriorityOp>,
}

impl ETHState {
    /// The registry, each address as its bytes.
    pub open spec fn registry_view(&self) -> Map<TokenId, Seq<u8>> {
        self.tokens@.map_values(|a: Vec<u8>| a@)
    }

    /// An empty registry and an empty queue.
    pub fn new() -> (r: ETHState)
        ensures
            r.registry_view() == Map::<TokenId, Seq<u8>>::empty(),
            r.priority_queue@ == Seq::<PriorityOp>::empty(),
    {
        let r = ETHState { tokens: HashMap::new(), priority_queue: Vec::new() };
        assert(r.registry_view() =~= Map::<TokenId, Seq<u8>>::empty());
        r
    }

    /// The token registry.
    pub fn registry(&self) -> (r: &HashMap<TokenId, Vec<u8>>)
        ensures
            r@ == self.tokens@,
    {
        &self.tokens
    }

    /// The priority operations in the order they were observed.
    pub fn priority_queue(&self) -> (r: &Vec<PriorityOp>)
        ensures
            r@ == self.priority_queue@,
    {
        &self.priority_queue
    }

    /// Sets the address of token `id`, replacing an earlier one.
    pub fn add_new_token(&mut self, id: TokenId, address: Vec<u8>)
        ensures
            final(self).registry_view() == old(self).registry_view().insert(id, address@),
            final(self).priority_queue@ == old(self).priority_queue@,
    {
        self.tokens.insert(id, address);
        assert(self.registry_view() =~= old(self).registry_view().insert(id, address@));
    }

    /// Appends `ops` to the queue and applies the registrations `tokens` in order.
    pub fn apply_events(&mut self, ops: Vec<PriorityOp>, tokens: Vec<TokenAddedEvent>)
        ensures
            final(self).priority_queue@ == old(self).priority_queue@ + ops@,
            final(self).registry_view() == registry_after(old(self).registry_view(), tokens@),
    {
        let ghost added = ops@;
        let mut ops = ops;
        self.priority_queue.append(&mut ops);
        let mut i: usize = 0;
        while i < tokens.len()
            invariant
                i <= tokens@.len(),
                self.priority_queue@ == old(self).priority_queue@ + added,
                self.registry_view() == registry_after(old(self).registry_view(), tokens@.subrange(0, i as int)),
            decreases tokens@.len() - i,
        {
            let ev = &tokens[i];
            proof {
                assert(tokens@.subrange(0, i + 1).drop_last() =~= tokens@.subrange(0, i as int));
            }
            self.add_new_token((ev.id % 65536) as TokenId, ev.address.clone());
            i = i + 1;
        }
        assert(tokens@.subrange(0, tokens@.len() as int) =~= tokens@);
    }
}

} // verus!
