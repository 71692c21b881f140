use vstd::prelude::*;
use std::collections::HashMap;
use crate::timer::TimerError;

verus! {

broadcast use vstd::std_specs::hash::group_hash_axioms;

/// The live callback cells, by token.
///
/// A system notification carries a token, not an address: the handler looks
/// the token up and does nothing when it is gone. Tokens are handed out in
/// increasing order and never twice, so a late notification for a freed
/// cell can never reach a cell registered after it.
pub struct TokenRegistry<V> {
    entries: HashMap<u64, V>,
    next: u64,
}

impl<V> View for TokenRegistry<V> {
    type V = Map<u64, V>;

    closed spec fn view(&self) -> Map<u64, V> {
        self.entries@
    }
}

impl<V> TokenRegistry<V> {
    /// The token that the next registration hands out.
    pub closed spec fn next_token(&self) -> nat {
        self.next as nat
    }

    /// Every registered token lies below the next one.
    pub closed spec fn wf(&self) -> bool {
        forall|t: u64| #[trigger] self.entries@.contains_key(t) ==> t < self.next
    }

    /// An empty registry.
    pub fn new() -> (r: TokenRegistry<V>)
        ensures
            r.wf(),
            r@ == Map::<u64, V>::empty(),
            r.next_token() == 0,
    {
        TokenRegistry { entries: HashMap::new(), next: 0 }
    }

    /// Registers `value` under a token never handed out before, and returns
    /// the token; `None`, leaving the registry as it was, once all tokens
    /// are spent.
    pub fn register(&mut self, value: V) -> (r: Option<u64>)
        requires
            old(self).wf(),
        ensures
            final(self).wf(),
            old(self).next_token() < u64::MAX ==> {
                &&& r == Some(old(self).next_token() as u64)
                &&& !old(self)@.contains_key(r.unwrap())
                &&& final(self)@ == old(self)@.insert(r.unwrap(), value)
                &&& final(self).next_token() == old(self).next_token() + 1
            },
            old(self).next_token() == u64::MAX ==> {
                &&& r is None
                &&& final(self)@ == old(self)@
                &&& final(self).next_token() == old(self).next_token()
            },
    {
        if self.next == u64::MAX {
            return None;
        }
        let token = self.next;
        self.entries.insert(token, value);
        self.next = self.next + 1;
        Some(token)
    }

    /// Whether `token` names a live cell.
    pub fn contains(&self, token: u64) -> (r: bool)
        ensures
            r == self@.contains_key(token),
    {
        self.entries.contains_key(&token)
    }

    /// The cell registered under `token`, if it is still live.
    pub fn lookup(&self, token: u64) -> (r: Option<&V>)
        ensures
            match r {
                Some(v) => self@.contains_key(token) && *v == self@[token],
                None => !self@.contains_key(token),
            },
    {
        self.entries.get(&token)
    }

    /// Unregisters `token`, returning what it named.
    pub fn remove(&mut self, token: u64) -> (r: Option<V>)
        requires
            old(self).wf(),
        ensures
            final(self).wf(),
            final(self)@ == old(self)@.remove(token),
            final(self).next_token() == old(self).next_token(),
            match r {
                Some(v) => old(self)@.contains_key(token) && v == old(self)@[token],
                None => !old(self)@.contains_key(token),
            },
    {
        self.entries.remove(&token)
    }

    /// Settles the registration of `token` once its system timer's creation
    /// has answered: a created timer keeps its cell registered and gives its
    /// handle; a failed creation unregisters the cell, so that nothing of it
    /// stays live, and passes the error on.
    pub fn settle(&mut self, token: u64, created: Result<u64, TimerError>) -> (r: Result<u64, TimerError>)
        requires
            old(self).wf(),
        ensures
            final(self).wf(),
            r == created,
            final(self).next_token() == old(self).next_token(),
            created is Ok ==> final(self)@ == old(self)@,
            created is Err ==> final(self)@ == old(self)@.remove(token),
    {
        if created.is_err() {
            self.remove(token);
        }
        created
    }

    /// How many cells are live.
    pub fn len(&self) -> (r: usize)
        ensures
            r == self@.len(),
    {
        self.entries.len()
    }
}

} // verus!
