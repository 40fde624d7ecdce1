//! The bag of facts that travels with a call: at most one fact of each
//! kind.

use vstd::prelude::*;
use vstd::string::*;
use crate::http::request_context::{RequestContext, RequestContextView};
use crate::net::forwarded::{Forwarded, ForwardedView};
use crate::net::user::credentials::{UserId, UserIdView};
use crate::utils::username::UsernameLabels;

verus! {

/// The kinds of fact. A bag holds at most one fact of each.
#[derive(Debug, Clone, Copy, PartialEq, Eq, Structural)]
pub enum FactKind {
    /// Who the request comes from.
    UserId,
    /// The labels that the username carried.
    UsernameLabels,
    /// What a proxy reported of the client.
    Forwarded,
    /// What is known of the request being served.
    RequestContext,
    /// A fact of the application's own, by its number.
    Custom(u32),
}

/// A fact: something that one layer found out and others may read.
#[derive(Debug, PartialEq, Eq)]
pub enum Fact {
    UserId(UserId),
    UsernameLabels(UsernameLabels),
    Forwarded(Forwarded),
    RequestContext(RequestContext),
    /// A fact of the application's own: its number and its text.
    Custom(u32, String),
}

/// The mathematical value of a [`Fact`].
pub enum FactView {
    UserId(UserIdView),
    UsernameLabels(Seq<Seq<char>>),
    Forwarded(ForwardedView),
    RequestContext(RequestContextView),
    Custom(u32, Seq<char>),
}

impl FactView {
    /// The kind of the fact.
    pub open spec fn kind(self) -> FactKind {
        match self {
            FactView::UserId(_) => FactKind::UserId,
            FactView::UsernameLabels(_) => FactKind::UsernameLabels,
            FactView::Forwarded(_) => FactKind::Forwarded,
            FactView::RequestContext(_) => FactKind::RequestContext,
            FactView::Custom(number, _) => FactKind::Custom(number),
        }
    }
}

impl View for Fact {
    type V = FactView;

    open spec fn view(&self) -> FactView {
        match self {
            Fact::UserId(user) => FactView::UserId(user@),
            Fact::UsernameLabels(labels) => FactView::UsernameLabels(labels@),
            Fact::Forwarded(forwarded) => FactView::Forwarded(forwarded@),
            Fact::RequestContext(context) => FactView::RequestContext(context@),
            Fact::Custom(number, text) => FactView::Custom(*number, text@),
        }
    }
}

impl Fact {
    /// The kind of the fact.
    pub fn kind(&self) -> (kind: FactKind)
        ensures
            kind == self@.kind(),
    {
        match self {
            Fact::UserId(_) => FactKind::UserId,
            Fact::UsernameLabels(_) => FactKind::UsernameLabels,
            Fact::Forwarded(_) => FactKind::Forwarded,
            Fact::RequestContext(_) => FactKind::RequestContext,
            Fact::Custom(number, _) => FactKind::Custom(*number),
        }
    }
}

impl Clone for Fact {
    fn clone(&self) -> (copy: Self)
        ensures
            copy@ == self@,
    {
        match self {
            Fact::UserId(user) => Fact::UserId(user.clone()),
            Fact::UsernameLabels(labels) => Fact::UsernameLabels(labels.clone()),
            Fact::Forwarded(forwarded) => Fact::Forwarded(forwarded.clone()),
            Fact::RequestContext(context) => Fact::RequestContext(context.clone()),
            Fact::Custom(number, text) => Fact::Custom(*number, text.clone()),
        }
    }
}

/// The report of a proxy among `facts`, if there is one.
pub open spec fn forwarded_in(facts: Map<FactKind, FactView>) -> Option<ForwardedView> {
    if facts.contains_key(FactKind::Forwarded) {
        match facts[FactKind::Forwarded] {
            FactView::Forwarded(forwarded) => Some(forwarded),
            _ => None,
        }
    } else {
        None
    }
}

/// The identity of the user among `facts`, if there is one.
pub open spec fn user_id_in(facts: Map<FactKind, FactView>) -> Option<UserIdView> {
    if facts.contains_key(FactKind::UserId) {
        match facts[FactKind::UserId] {
            FactView::UserId(user) => Some(user),
            _ => None,
        }
    } else {
        None
    }
}

/// The labels of the username among `facts`, if there are any.
pub open spec fn username_labels_in(facts: Map<FactKind, FactView>) -> Option<Seq<Seq<char>>> {
    if facts.contains_key(FactKind::UsernameLabels) {
        match facts[FactKind::UsernameLabels] {
            FactView::UsernameLabels(labels) => Some(labels),
            _ => None,
        }
    } else {
        None
    }
}

/// The context of the request among `facts`, if there is one.
pub open spec fn request_context_in(facts: Map<FactKind, FactView>) -> Option<RequestContextView> {
    if facts.contains_key(FactKind::RequestContext) {
        match facts[FactKind::RequestContext] {
            FactView::RequestContext(context) => Some(context),
            _ => None,
        }
    } else {
        None
    }
}

/// Whether the fact at place `i` of `s` is of kind `k`.
spec fn holds(s: Seq<Fact>, k: FactKind, i: int) -> bool {
    0 <= i < s.len() && s[i]@.kind() == k
}

/// Whether `s` holds a fact of kind `k` at place `from` or after it.
spec fn later(s: Seq<Fact>, from: int, k: FactKind) -> bool {
    exists|i: int| from <= i && holds(s, k, i)
}

/// Whether no two facts of `s` are of one kind.
spec fn distinct(s: Seq<Fact>) -> bool {
    forall|i: int, j: int| 0 <= i < j < s.len() ==> s[i]@.kind() != s[j]@.kind()
}

/// The facts of `s`, by kind.
spec fn by_kind(s: Seq<Fact>) -> Map<FactKind, FactView> {
    Map::new(
        |k: FactKind| exists|i: int| holds(s, k, i),
        |k: FactKind| s[choose|i: int| holds(s, k, i)]@,
    )
}

proof fn lemma_same_map(a: Map<FactKind, FactView>, b: Map<FactKind, FactView>)
    requires
        forall|k: FactKind| #[trigger] a.contains_key(k) == b.contains_key(k),
        forall|k: FactKind| #[trigger] a.contains_key(k) ==> a[k] == b[k],
    ensures
        a == b,
{
    assert(a =~= b);
}

proof fn lemma_present(s: Seq<Fact>, i: int)
    requires
        distinct(s),
        0 <= i < s.len(),
    ensures
        by_kind(s).contains_key(s[i]@.kind()),
        by_kind(s)[s[i]@.kind()] == s[i]@,
{
    let k = s[i]@.kind();
    assert(holds(s, k, i));
    let j = choose|j: int| holds(s, k, j);
    assert(holds(s, k, j));
    if i < j {
        assert(s[i]@.kind() != s[j]@.kind());
    } else if j < i {
        assert(s[j]@.kind() != s[i]@.kind());
    }
}

proof fn lemma_absent(s: Seq<Fact>, k: FactKind)
    requires
        forall|i: int| 0 <= i < s.len() ==> s[i]@.kind() != k,
    ensures
        !by_kind(s).contains_key(k),
{
    if exists|i: int| holds(s, k, i) {
        let i = choose|i: int| holds(s, k, i);
        assert(holds(s, k, i));
    }
}

proof fn lemma_empty(s: Seq<Fact>)
    requires
        s.len() == 0,
    ensures
        by_kind(s) == Map::<FactKind, FactView>::empty(),
{
    assert forall|k: FactKind| !by_kind(s).contains_key(k) by {
        lemma_absent(s, k);
    }
    assert(by_kind(s) =~= Map::<FactKind, FactView>::empty());
}

proof fn lemma_count(s: Seq<Fact>)
    requires
        distinct(s),
    ensures
        by_kind(s).dom().finite(),
        by_kind(s).dom().len() == s.len(),
    decreases s.len(),
{
    if s.len() == 0 {
        lemma_empty(s);
        assert(by_kind(s).dom() =~= Set::<FactKind>::empty());
    } else {
        let front = s.drop_last();
        let last = s.last();
        assert forall|i: int, j: int| 0 <= i < j < front.len() implies front[i]@.kind() != front[j]@.kind() by {
            assert(s[i]@.kind() != s[j]@.kind());
        }
        lemma_count(front);
        assert forall|i: int| 0 <= i < front.len() implies front[i]@.kind() != last@.kind() by {
            assert(s[i]@.kind() != s[s.len() - 1]@.kind());
        }
        lemma_absent(front, last@.kind());
        lemma_push(front, last);
        assert(front.push(last) =~= s);
        assert(by_kind(s).dom() =~= by_kind(front).dom().insert(last@.kind()));
    }
}

proof fn lemma_push(s: Seq<Fact>, f: Fact)
    requires
        distinct(s),
        forall|i: int| 0 <= i < s.len() ==> s[i]@.kind() != f@.kind(),
    ensures
        distinct(s.push(f)),
        by_kind(s.push(f)) == by_kind(s).insert(f@.kind(), f@),
{
    let t = s.push(f);
    assert(distinct(t));
    let goal = by_kind(s).insert(f@.kind(), f@);
    assert forall|k: FactKind|
        (#[trigger] by_kind(t).contains_key(k)) == goal.contains_key(k) && (by_kind(t).contains_key(k)
            ==> by_kind(t)[k] == goal[k]) by {
        if k == f@.kind() {
            lemma_present(t, s.len() as int);
        } else if exists|i: int| holds(s, k, i) {
            let i = choose|i: int| holds(s, k, i);
            assert(holds(s, k, i));
            assert(t[i] == s[i]);
            lemma_present(t, i);
            lemma_present(s, i);
        } else {
            assert forall|i: int| 0 <= i < t.len() implies t[i]@.kind() != k by {
                if i < s.len() {
                    assert(t[i] == s[i]);
                    assert(!holds(s, k, i));
                }
            }
            lemma_absent(t, k);
        }
    }
    lemma_same_map(by_kind(t), goal);
}

proof fn lemma_update(s: Seq<Fact>, at: int, f: Fact)
    requires
        distinct(s),
        0 <= at < s.len(),
        s[at]@.kind() == f@.kind(),
    ensures
        distinct(s.update(at, f)),
        by_kind(s.update(at, f)) == by_kind(s).insert(f@.kind(), f@),
{
    let t = s.update(at, f);
    assert forall|i: int, j: int| 0 <= i < j < t.len() implies t[i]@.kind() != t[j]@.kind() by {
        assert(s[i]@.kind() != s[j]@.kind());
    }
    let goal = by_kind(s).insert(f@.kind(), f@);
    assert forall|k: FactKind|
        (#[trigger] by_kind(t).contains_key(k)) == goal.contains_key(k) && (by_kind(t).contains_key(k)
            ==> by_kind(t)[k] == goal[k]) by {
        if k == f@.kind() {
            lemma_present(t, at);
        } else if exists|i: int| holds(s, k, i) {
            let i = choose|i: int| holds(s, k, i);
            assert(holds(s, k, i));
            assert(t[i] == s[i]);
            lemma_present(t, i);
            lemma_present(s, i);
        } else {
            assert forall|i: int| 0 <= i < t.len() implies t[i]@.kind() != k by {
                if i != at {
                    assert(t[i] == s[i]);
                    assert(!holds(s, k, i));
                }
            }
            lemma_absent(t, k);
        }
    }
    lemma_same_map(by_kind(t), goal);
}

/// A bag of facts, at most one of each kind.
#[derive(Debug)]
pub struct Extensions {
    facts: Vec<Fact>,
}

impl View for Extensions {
    type V = Map<FactKind, FactView>;

    closed spec fn view(&self) -> Map<FactKind, FactView> {
        by_kind(self.facts@)
    }
}

impl Extensions {
    #[verifier::type_invariant]
    spec fn well_formed(self) -> bool {
        distinct(self.facts@)
    }

    /// An empty bag.
    pub fn new() -> (bag: Extensions)
        ensures
            bag@ == Map::<FactKind, FactView>::empty(),
    {
        let bag = Extensions { facts: Vec::new() };
        proof {
            lemma_empty(bag.facts@);
        }
        bag
    }

    /// The place of the fact of kind `kind`, if the bag holds one.
    fn find(&self, kind: FactKind) -> (place: Option<usize>)
        ensures
            match place {
                Some(i) => holds(self.facts@, kind, i as int),
                None => forall|i: int| 0 <= i < self.facts@.len() ==> self.facts@[i]@.kind() != kind,
            },
    {
        let mut i: usize = 0;
        while i < self.facts.len()
            invariant
                i <= self.facts.len(),
                forall|j: int| 0 <= j < i ==> self.facts@[j]@.kind() != kind,
            decreases self.facts.len() - i,
        {
            if self.facts[i].kind() == kind {
                return Some(i);
            }
            i += 1;
        }
        None
    }

    /// The fact of kind `kind`, if the bag holds one. Never fails.
    pub fn get(&self, kind: FactKind) -> (fact: Option<&Fact>)
        ensures
            match fact {
                Some(f) => self@.contains_key(kind) && self@[kind] == f@,
                None => !self@.contains_key(kind),
            },
    {
        proof {
            use_type_invariant(self);
        }
        match self.find(kind) {
            Some(i) => {
                proof {
                    lemma_present(self.facts@, i as int);
                }
                Some(&self.facts[i])
            },
            None => {
                proof {
                    lemma_absent(self.facts@, kind);
                }
                None
            },
        }
    }

    /// The report of a proxy, if the bag holds one.
    pub fn forwarded(&self) -> (forwarded: Option<&Forwarded>)
        ensures
            match forwarded {
                Some(f) => forwarded_in(self@) == Some(f@),
                None => forwarded_in(self@) is None,
            },
    {
        match self.get(FactKind::Forwarded) {
            Some(Fact::Forwarded(forwarded)) => Some(forwarded),
            _ => None,
        }
    }

    /// The identity of the user, if the bag holds one.
    pub fn user_id(&self) -> (user: Option<&UserId>)
        ensures
            match user {
                Some(u) => user_id_in(self@) == Some(u@),
                None => user_id_in(self@) is None,
            },
    {
        match self.get(FactKind::UserId) {
            Some(Fact::UserId(user)) => Some(user),
            _ => None,
        }
    }

    /// The labels of the username, if the bag holds any.
    pub fn username_labels(&self) -> (labels: Option<&UsernameLabels>)
        ensures
            match labels {
                Some(l) => username_labels_in(self@) == Some(l@),
                None => username_labels_in(self@) is None,
            },
    {
        match self.get(FactKind::UsernameLabels) {
            Some(Fact::UsernameLabels(labels)) => Some(labels),
            _ => None,
        }
    }

    /// The context of the request, if the bag holds one.
    pub fn request_context(&self) -> (context: Option<&RequestContext>)
        ensures
            match context {
                Some(c) => request_context_in(self@) == Some(c@),
                None => request_context_in(self@) is None,
            },
    {
        match self.get(FactKind::RequestContext) {
            Some(Fact::RequestContext(context)) => Some(context),
            _ => None,
        }
    }

    /// Whether the bag holds a fact of kind `kind`.
    pub fn contains(&self, kind: FactKind) -> (held: bool)
        ensures
            held == self@.contains_key(kind),
    {
        self.get(kind).is_some()
    }

    /// Puts `fact` into the bag, in place of the fact of its kind if the
    /// bag holds one, and hands that earlier fact back.
    pub fn insert(&mut self, fact: Fact) -> (prior: Option<Fact>)
        ensures
            final(self)@ == old(self)@.insert(fact@.kind(), fact@),
            match prior {
                Some(p) => old(self)@.contains_key(fact@.kind()) && old(self)@[fact@.kind()] == p@,
                None => !old(self)@.contains_key(fact@.kind()),
            },
    {
        proof {
            use_type_invariant(&*self);
        }
        let place = self.find(fact.kind());
        let ghost before = self.facts@;
        let mut facts: Vec<Fact> = Vec::new();
        core::mem::swap(&mut self.facts, &mut facts);
        match place {
            Some(i) => {
                proof {
                    lemma_present(before, i as int);
                    lemma_update(before, i as int, fact);
                }
                facts.push(fact);
                let prior = facts.swap_remove(i);
                assert(facts@ =~= before.update(i as int, fact));
                core::mem::swap(&mut self.facts, &mut facts);
                Some(prior)
            },
            None => {
                proof {
                    lemma_absent(before, fact@.kind());
                    lemma_push(before, fact);
                }
                facts.push(fact);
                core::mem::swap(&mut self.facts, &mut facts);
                None
            },
        }
    }

    /// Moves every fact of `other` into the bag. Where both hold a fact of
    /// one kind, the fact of `other` stays.
    pub fn extend(&mut self, other: Extensions)
        ensures
            final(self)@ == old(self)@.union_prefer_right(other@),
    {
        proof {
            use_type_invariant(&other);
        }
        let ghost all = other.facts@;
        let ghost start = self@;
        let mut rest = other.facts;
        while rest.len() > 0
            invariant
                distinct(all),
                rest@.len() <= all.len(),
                rest@ == all.take(rest@.len() as int),
                forall|k: FactKind| #[trigger]
                    later(all, rest@.len() as int, k) ==> self@.contains_key(k) && self@[k] == by_kind(all)[k],
                forall|k: FactKind|
                    !#[trigger] later(all, rest@.len() as int, k) ==> self@.contains_key(k) == start.contains_key(
                        k,
                    ) && (self@.contains_key(k) ==> self@[k] == start[k]),
            decreases rest.len(),
        {
            let ghost m = rest@.len() - 1;
            let ghost prev = self@;
            let fact = rest.pop().unwrap();
            assert(fact == all[m]);
            proof {
                lemma_present(all, m);
            }
            self.insert(fact);
            assert(self@ == prev.insert(fact@.kind(), fact@));
            assert forall|k: FactKind| #[trigger] later(all, m, k) implies self@.contains_key(k) && self@[k]
                == by_kind(all)[k] by {
                let i = choose|i: int| m <= i && holds(all, k, i);
                if i != m {
                    assert(m + 1 <= i && holds(all, k, i));
                    assert(later(all, m + 1, k));
                    assert(all[m]@.kind() != all[i]@.kind());
                }
            }
            assert forall|k: FactKind| !#[trigger] later(all, m, k) implies self@.contains_key(k)
                == start.contains_key(k) && (self@.contains_key(k) ==> self@[k] == start[k]) by {
                if holds(all, k, m) {
                    assert(m <= m && holds(all, k, m));
                }
                if later(all, m + 1, k) {
                    let i = choose|i: int| m + 1 <= i && holds(all, k, i);
                    assert(m <= i && holds(all, k, i));
                }
            }
        }
        let ghost goal = old(self)@.union_prefer_right(other@);
        assert forall|k: FactKind|
            (#[trigger] self@.contains_key(k)) == goal.contains_key(k) && (self@.contains_key(k) ==> self@[k]
                == goal[k]) by {
            if other@.contains_key(k) {
                let i = choose|i: int| holds(all, k, i);
                assert(0 <= i && holds(all, k, i));
                assert(later(all, 0, k));
            } else {
                if later(all, 0, k) {
                    let i = choose|i: int| 0 <= i && holds(all, k, i);
                    assert(holds(all, k, i));
                }
            }
        }
        proof {
            lemma_same_map(self@, goal);
        }
    }

    /// The number of facts in the bag, which is the number of kinds of
    /// which it holds a fact.
    pub fn len(&self) -> (n: usize)
        ensures
            self@.dom().finite(),
            n == self@.dom().len(),
    {
        proof {
            use_type_invariant(self);
            lemma_count(self.facts@);
        }
        self.facts.len()
    }

    /// Whether the bag holds no fact.
    pub fn is_empty(&self) -> (empty: bool)
        ensures
            empty == (self@ == Map::<FactKind, FactView>::empty()),
    {
        proof {
            use_type_invariant(self);
            if self.facts@.len() == 0 {
                lemma_empty(self.facts@);
            } else {
                lemma_present(self.facts@, 0);
            }
        }
        self.facts.len() == 0
    }
}

impl Clone for Extensions {
    /// A bag of its own with a copy of each fact.
    fn clone(&self) -> (copy: Self)
        ensures
            copy@ == self@,
    {
        proof {
            use_type_invariant(self);
        }
        let mut facts: Vec<Fact> = Vec::new();
        let mut i: usize = 0;
        while i < self.facts.len()
            invariant
                i <= self.facts.len(),
                facts@.len() == i,
                forall|j: int| 0 <= j < i ==> facts@[j]@ == self.facts@[j]@,
            decreases self.facts.len() - i,
        {
            facts.push(self.facts[i].clone());
            i += 1;
        }
        proof {
            let s = self.facts@;
            let t = facts@;
            assert forall|a: int, b: int| 0 <= a < b < t.len() implies t[a]@.kind() != t[b]@.kind() by {
                assert(s[a]@.kind() != s[b]@.kind());
            }
            assert forall|k: FactKind|
                (#[trigger] by_kind(t).contains_key(k)) == by_kind(s).contains_key(k) && (by_kind(t).contains_key(
                    k,
                ) ==> by_kind(t)[k] == by_kind(s)[k]) by {
                if exists|a: int| holds(s, k, a) {
                    let a = choose|a: int| holds(s, k, a);
                    assert(holds(s, k, a));
                    lemma_present(s, a);
                    lemma_present(t, a);
                } else {
                    assert forall|a: int| 0 <= a < t.len() implies t[a]@.kind() != k by {
                        assert(!holds(s, k, a));
                    }
                    lemma_absent(t, k);
                }
            }
            lemma_same_map(by_kind(t), by_kind(s));
        }
        Extensions { facts }
    }
}

impl Default for Extensions {
    fn default() -> (bag: Self)
        ensures
            bag@ == Map::<FactKind, FactView>::empty(),
    {
        Extensions::new()
    }
}

} // verus!
