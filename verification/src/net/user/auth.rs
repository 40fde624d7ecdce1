//! Deciding whether credentials are authorised, and what is then known
//! of the user.

use vstd::prelude::*;
use vstd::string::*;
use crate::context::extensions::{Extensions, Fact, FactKind, FactView};
use crate::net::user::credentials::{Basic, BasicView, UserId, UserIdView};
use crate::utils::text::same_text;
use crate::utils::username::{
    parse_username,
    username_of,
    UsernameLabelParser,
    DEFAULT_USERNAME_LABEL_SEPARATOR,
};

verus! {

/// The one fact that names the user `name`.
pub open spec fn named(name: Seq<char>) -> Map<FactKind, FactView> {
    Map::empty().insert(FactKind::UserId, FactView::UserId(UserIdView::Username(name)))
}

/// A judge of credentials of type `C`. `L` says how the labels of a
/// username are read, `()` where they are not read at all.
///
/// An implementation states its own judgement as a function of the
/// credentials: the facts that it grants, or nothing where it refuses.
pub trait AuthoritySync<C, L> {
    /// The facts that the judge grants to `credentials`; nothing where it
    /// refuses them.
    spec fn grants(&self, credentials: &C) -> Option<Map<FactKind, FactView>>;

    /// Judges `credentials`. Returns `true` and puts the granted facts
    /// into `ext` where it accepts them; returns `false` and leaves `ext`
    /// as it was where it refuses them.
    fn authorized(&self, ext: &mut Extensions, credentials: &C) -> (accepted: bool)
        ensures
            match self.grants(credentials) {
                Some(facts) => accepted && final(ext)@ == old(ext)@.union_prefer_right(facts),
                None => !accepted && final(ext)@ == old(ext)@,
            },
    ;
}

/// A judge of credentials that answers with the facts it grants.
pub trait Authority<C, L> {
    /// The facts that the judge grants to `credentials`; nothing where it
    /// refuses them.
    spec fn verdict(&self, credentials: &C) -> Option<Map<FactKind, FactView>>;

    /// Judges `credentials`: the granted facts where it accepts them,
    /// nothing where it refuses them.
    fn authorized(&self, credentials: C) -> (granted: Option<Extensions>)
        ensures
            match self.verdict(&credentials) {
                Some(facts) => granted is Some && granted->Some_0@ == facts,
                None => granted is None,
            },
    ;
}

impl<A, C, L> Authority<C, L> for A where A: AuthoritySync<C, L> {
    open spec fn verdict(&self, credentials: &C) -> Option<Map<FactKind, FactView>> {
        self.grants(credentials)
    }

    /// Starts from an empty bag and hands it out only on acceptance.
    fn authorized(&self, credentials: C) -> (granted: Option<Extensions>) {
        let mut ext = Extensions::new();
        if AuthoritySync::<C, L>::authorized(self, &mut ext, &credentials) {
            proof {
                let facts = self.grants(&credentials)->Some_0;
                assert(Map::<FactKind, FactView>::empty().union_prefer_right(facts) =~= facts);
            }
            Some(ext)
        } else {
            None
        }
    }
}

impl AuthoritySync<Basic, ()> for Basic {
    /// Grants the user's name to credentials that equal its own.
    open spec fn grants(&self, credentials: &Basic) -> Option<Map<FactKind, FactView>> {
        if self@ == credentials@ {
            Some(named(self@.username))
        } else {
            None
        }
    }

    fn authorized(&self, ext: &mut Extensions, credentials: &Basic) -> (accepted: bool) {
        if self.same_as(credentials) {
            ext.insert(Fact::UserId(UserId::Username(self.username().to_owned())));
            assert(ext@ =~= old(ext)@.union_prefer_right(named(self@.username)));
            true
        } else {
            false
        }
    }
}

/// What the judge `own` grants to credentials that it compares as a
/// whole: the user's name where username and password are its own,
/// nothing otherwise.
pub open spec fn grants_as_a_whole(own: BasicView, credentials: BasicView) -> Option<
    Map<FactKind, FactView>,
> {
    if own == credentials {
        Some(named(credentials.username))
    } else {
        None
    }
}

/// What credentials with a labelled username are granted by the judge
/// `own`, where a parser of type `T` reads the labels.
///
/// The password must be the judge's own. Where the username reads as the
/// judge's own name followed by labels, the name and what the labels say
/// are granted. Where it cannot be read so, because the reading fails or
/// because the name read is another, the username is compared as a
/// whole.
pub open spec fn grants_with_labels<T: UsernameLabelParser>(own: BasicView, credentials: BasicView) -> Option<
    Map<FactKind, FactView>,
> {
    if credentials.password != own.password {
        None
    } else {
        match username_of::<T>(T::initial(), credentials.username, DEFAULT_USERNAME_LABEL_SEPARATOR) {
            Err(_) => grants_as_a_whole(own, credentials),
            Ok((base, facts)) => if base == own.username {
                Some(facts.insert(FactKind::UserId, FactView::UserId(UserIdView::Username(base))))
            } else {
                grants_as_a_whole(own, credentials)
            },
        }
    }
}

/// Compares `credentials` with those of `own` as a whole, and grants the
/// user's name where they are the same.
fn authorized_as_a_whole(own: &Basic, ext: &mut Extensions, credentials: &Basic) -> (accepted: bool)
    ensures
        match grants_as_a_whole(own@, credentials@) {
            Some(facts) => accepted && final(ext)@ == old(ext)@.union_prefer_right(facts),
            None => !accepted && final(ext)@ == old(ext)@,
        },
{
    if own.same_as(credentials) {
        ext.insert(Fact::UserId(UserId::Username(credentials.username().to_owned())));
        assert(ext@ =~= old(ext)@.union_prefer_right(named(credentials@.username)));
        true
    } else {
        false
    }
}

impl<T: UsernameLabelParser> AuthoritySync<Basic, T> for Basic {
    /// Grants the user's name, and what the labels say, to credentials
    /// with its password whose username is its own name followed by
    /// labels. Where the username cannot be read as its own name with
    /// labels, it is compared as a whole.
    open spec fn grants(&self, credentials: &Basic) -> Option<Map<FactKind, FactView>> {
        grants_with_labels::<T>(self@, credentials@)
    }

    fn authorized(&self, ext: &mut Extensions, credentials: &Basic) -> (accepted: bool) {
        let username = credentials.username();
        let password = credentials.password();

        if !same_text(password, self.password()) {
            return false;
        }

        let mut parser_ext = Extensions::new();
        let username = match parse_username(&mut parser_ext, T::create(), username) {
            Ok(name) => name,
            Err(_) => {
                return authorized_as_a_whole(self, ext, credentials);
            },
        };

        if !same_text(username.as_str(), self.username()) {
            return authorized_as_a_whole(self, ext, credentials);
        }

        let ghost facts = parser_ext@;
        let ghost user = FactView::UserId(UserIdView::Username(username@));
        ext.extend(parser_ext);
        ext.insert(Fact::UserId(UserId::Username(username)));
        proof {
            let read = username_of::<T>(
                T::initial(),
                credentials@.username,
                DEFAULT_USERNAME_LABEL_SEPARATOR,
            )->Ok_0.1;
            assert(facts =~= read) by {
                assert(Map::<FactKind, FactView>::empty().union_prefer_right(read) =~= read);
            }
            assert(ext@ =~= old(ext)@.union_prefer_right(facts.insert(FactKind::UserId, user)));
        }
        true
    }
}

/// The facts that the first of `judges` to accept `credentials` grants;
/// nothing where all refuse.
pub open spec fn first_grant<C, L, T: AuthoritySync<C, L>>(judges: Seq<T>, credentials: &C) -> Option<
    Map<FactKind, FactView>,
>
    decreases judges.len(),
{
    if judges.len() == 0 {
        None
    } else {
        match judges[0].grants(credentials) {
            Some(facts) => Some(facts),
            None => first_grant::<C, L, T>(judges.skip(1), credentials),
        }
    }
}

/// Judges in a row stand for one another: the row accepts exactly where
/// one of its judges accepts, and it grants what the first of them to
/// accept grants, nothing of the judges before that one and nothing of
/// those after.
pub proof fn the_first_to_accept_decides<C, L, T: AuthoritySync<C, L>>(judges: Seq<T>, credentials: &C)
    ensures
        first_grant::<C, L, T>(judges, credentials) is Some <==> exists|i: int|
            0 <= i < judges.len() && (#[trigger] judges[i].grants(credentials)) is Some,
        first_grant::<C, L, T>(judges, credentials) is Some ==> exists|i: int|
            {
                &&& 0 <= i < judges.len()
                &&& #[trigger] judges[i].grants(credentials) == first_grant::<C, L, T>(judges, credentials)
                &&& forall|j: int| 0 <= j < i ==> (#[trigger] judges[j].grants(credentials)) is None
            },
    decreases judges.len(),
{
    if judges.len() > 0 {
        let rest = judges.skip(1);
        the_first_to_accept_decides::<C, L, T>(rest, credentials);
        if judges[0].grants(credentials) is Some {
            assert(judges[0].grants(credentials) == first_grant::<C, L, T>(judges, credentials));
        } else {
            if first_grant::<C, L, T>(rest, credentials) is Some {
                let i = choose|i: int|
                    {
                        &&& 0 <= i < rest.len()
                        &&& #[trigger] rest[i].grants(credentials) == first_grant::<C, L, T>(
                            rest,
                            credentials,
                        )
                        &&& forall|j: int| 0 <= j < i ==> (#[trigger] rest[j].grants(credentials)) is None
                    };
                assert(rest[i] == judges[i + 1]);
                assert forall|j: int| 0 <= j < i + 1 implies (#[trigger] judges[j].grants(
                    credentials,
                )) is None by {
                    if j > 0 {
                        assert(judges[j] == rest[j - 1]);
                    }
                }
                assert(judges[i + 1].grants(credentials) == first_grant::<C, L, T>(judges, credentials));
            }
            if exists|i: int| 0 <= i < judges.len() && (#[trigger] judges[i].grants(credentials)) is Some {
                let i = choose|i: int|
                    0 <= i < judges.len() && (#[trigger] judges[i].grants(credentials)) is Some;
                assert(rest[i - 1] == judges[i]);
                assert(rest[i - 1].grants(credentials) is Some);
            }
        }
    }
}

/// Asks the judges in order until one accepts.
fn any_authorized<C, L, T: AuthoritySync<C, L>>(judges: &[T], ext: &mut Extensions, credentials: &C) -> (accepted:
    bool)
    ensures
        match first_grant::<C, L, T>(judges@, credentials) {
            Some(facts) => accepted && final(ext)@ == old(ext)@.union_prefer_right(facts),
            None => !accepted && final(ext)@ == old(ext)@,
        },
{
    let mut i: usize = 0;
    proof {
        assert(judges@.skip(0) =~= judges@);
    }
    while i < judges.len()
        invariant
            i <= judges.len(),
            first_grant::<C, L, T>(judges@, credentials) == first_grant::<C, L, T>(
                judges@.skip(i as int),
                credentials,
            ),
            ext@ == old(ext)@,
        decreases judges.len() - i,
    {
        proof {
            assert(judges@.skip(i as int)[0] == judges@[i as int]);
            assert(judges@.skip(i as int).skip(1) =~= judges@.skip(i + 1));
        }
        if judges[i].authorized(ext, credentials) {
            return true;
        }
        i += 1;
    }
    false
}

impl<C, L, T, const N: usize> AuthoritySync<C, L> for [T; N] where T: AuthoritySync<C, L> {
    /// Grants what the first judge to accept grants: the judges stand for
    /// one another, and those after the first to accept are not asked.
    open spec fn grants(&self, credentials: &C) -> Option<Map<FactKind, FactView>> {
        first_grant::<C, L, T>(self@, credentials)
    }

    fn authorized(&self, ext: &mut Extensions, credentials: &C) -> (accepted: bool) {
        any_authorized::<C, L, T>(self.as_slice(), ext, credentials)
    }
}

impl<C, L, T> AuthoritySync<C, L> for Vec<T> where T: AuthoritySync<C, L> {
    /// Grants what the first judge to accept grants: the judges stand for
    /// one another, and those after the first to accept are not asked.
    open spec fn grants(&self, credentials: &C) -> Option<Map<FactKind, FactView>> {
        first_grant::<C, L, T>(self@, credentials)
    }

    fn authorized(&self, ext: &mut Extensions, credentials: &C) -> (accepted: bool) {
        any_authorized::<C, L, T>(self.as_slice(), ext, credentials)
    }
}

} // verus!
