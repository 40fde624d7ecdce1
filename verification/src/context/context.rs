//! The context of one call.

use vstd::prelude::*;
use std::sync::Arc;
use crate::context::extensions::{Extensions, Fact, FactKind, FactView};
use crate::context::guard::Guard;
use crate::utils::shared::share;

verus! {

/// What travels with one call: the state of the application, shared by
/// all calls; the facts found out so far, owned by this call; and, where
/// the call belongs to a connection that can be shut down, the guard.
pub struct Context<State> {
    state: Arc<State>,
    extensions: Extensions,
    guard: Option<Guard>,
}

/// The mathematical value of a [`Context`].
pub struct ContextView<State> {
    /// The state of the application.
    pub state: State,
    /// The facts of the call, by kind.
    pub facts: Map<FactKind, FactView>,
    /// The guard of the call.
    pub guard: Option<Guard>,
}

impl<State> View for Context<State> {
    type V = ContextView<State>;

    open spec fn view(&self) -> ContextView<State> {
        ContextView { state: self.state_spec(), facts: self.facts(), guard: self.guard_spec() }
    }
}

impl<State> Context<State> {
    /// The state of the application.
    pub closed spec fn state_spec(&self) -> State {
        *self.state
    }

    /// The facts of the call, by kind.
    pub closed spec fn facts(&self) -> Map<FactKind, FactView> {
        self.extensions@
    }

    /// The guard of the call.
    pub closed spec fn guard_spec(&self) -> Option<Guard> {
        self.guard
    }

    /// A context of the given state, with no fact and no guard.
    pub fn new(state: Arc<State>) -> (ctx: Context<State>)
        ensures
            ctx.state_spec() == *state,
            ctx.facts() == Map::<FactKind, FactView>::empty(),
            ctx.guard_spec() is None,
    {
        Context { state, extensions: Extensions::new(), guard: None }
    }

    /// A context of the given state and guard, with no fact.
    pub fn with_guard(state: Arc<State>, guard: Guard) -> (ctx: Context<State>)
        ensures
            ctx.state_spec() == *state,
            ctx.facts() == Map::<FactKind, FactView>::empty(),
            ctx.guard_spec() == Some(guard),
    {
        Context { state, extensions: Extensions::new(), guard: Some(guard) }
    }

    /// The state of the application.
    pub fn state(&self) -> (state: &State)
        ensures
            *state == self.state_spec(),
    {
        &self.state
    }

    /// The guard, if the call has one.
    pub fn guard(&self) -> (guard: Option<&Guard>)
        ensures
            match guard {
                Some(g) => self.guard_spec() == Some(*g),
                None => self.guard_spec() is None,
            },
    {
        self.guard.as_ref()
    }

    /// The fact of kind `kind`, if the call holds one. Never fails.
    pub fn get(&self, kind: FactKind) -> (fact: Option<&Fact>)
        ensures
            match fact {
                Some(f) => self.facts().contains_key(kind) && self.facts()[kind] == f@,
                None => !self.facts().contains_key(kind),
            },
    {
        self.extensions.get(kind)
    }

    /// Whether the call holds a fact of kind `kind`.
    pub fn contains(&self, kind: FactKind) -> (held: bool)
        ensures
            held == self.facts().contains_key(kind),
    {
        self.extensions.contains(kind)
    }

    /// Puts `fact` among the facts of the call, in place of the fact of
    /// its kind if there is one, and hands that earlier fact back. State
    /// and guard stay as they are.
    pub fn insert(&mut self, fact: Fact) -> (prior: Option<Fact>)
        ensures
            final(self).facts() == old(self).facts().insert(fact@.kind(), fact@),
            final(self).state_spec() == old(self).state_spec(),
            final(self).guard_spec() == old(self).guard_spec(),
            match prior {
                Some(p) => old(self).facts().contains_key(fact@.kind()) && old(self).facts()[fact@.kind()] == p@,
                None => !old(self).facts().contains_key(fact@.kind()),
            },
    {
        self.extensions.insert(fact)
    }

    /// Moves every fact of `other` among the facts of the call. Where both
    /// hold a fact of one kind, the fact of `other` stays.
    pub fn extend(&mut self, other: Extensions)
        ensures
            final(self).facts() == old(self).facts().union_prefer_right(other@),
            final(self).state_spec() == old(self).state_spec(),
            final(self).guard_spec() == old(self).guard_spec(),
    {
        self.extensions.extend(other)
    }

    /// The facts of the call.
    pub fn extensions(&self) -> (bag: &Extensions)
        ensures
            bag@ == self.facts(),
    {
        &self.extensions
    }

    /// The facts of the call, taken out of the context.
    pub fn into_extensions(self) -> (bag: Extensions)
        ensures
            bag@ == self.facts(),
    {
        self.extensions
    }
}

impl<State> Clone for Context<State> {
    /// A context for another attempt or another layer: it shares the state
    /// and the guard, and has a copy of the facts that is its own.
    fn clone(&self) -> (copy: Self)
        ensures
            copy@ == self@,
    {
        let guard = match &self.guard {
            Some(g) => Some(g.clone()),
            None => None,
        };
        Context { state: share(&self.state), extensions: self.extensions.clone(), guard }
    }
}

impl Default for Context<()> {
    /// A context without state, fact or guard.
    fn default() -> (ctx: Self)
        ensures
            ctx.facts() == Map::<FactKind, FactView>::empty(),
            ctx.guard_spec() is None,
    {
        Context::new(Arc::new(()))
    }
}

} // verus!
