//! Usernames that carry labels: `name-label1-label2`.

use vstd::prelude::*;
use vstd::string::*;
use crate::context::extensions::{Extensions, Fact, FactKind, FactView};
use crate::utils::text::{clone_strings, texts};

verus! {

/// The character between a username and its labels.
pub const DEFAULT_USERNAME_LABEL_SEPARATOR: char = '-';

/// The labels that a username carried, in order.
#[derive(Debug, PartialEq, Eq)]
pub struct UsernameLabels(pub Vec<String>);

impl View for UsernameLabels {
    type V = Seq<Seq<char>>;

    open spec fn view(&self) -> Seq<Seq<char>> {
        texts(self.0@)
    }
}

impl Clone for UsernameLabels {
    fn clone(&self) -> (copy: Self)
        ensures
            copy@ == self@,
    {
        UsernameLabels(clone_strings(&self.0))
    }
}

/// The number of characters of `s` before the first `c`; the length of
/// `s` where it holds no `c`.
pub open spec fn first_at(s: Seq<char>, c: char) -> int
    decreases s.len(),
{
    if s.len() == 0 || s[0] == c {
        0
    } else {
        1 + first_at(s.skip(1), c)
    }
}

/// The pieces of `s` between the occurrences of `c`. A text without `c`
/// is one piece.
pub open spec fn split(s: Seq<char>, c: char) -> Seq<Seq<char>>
    decreases s.len(),
    via split_decreases
{
    let i = first_at(s, c);
    if i >= s.len() {
        seq![s]
    } else {
        seq![s.take(i)] + split(s.skip(i + 1), c)
    }
}

#[via_fn]
proof fn split_decreases(s: Seq<char>, c: char) {
    lemma_first_at(s, c);
}

/// `first_at` finds the first `c`, or the end.
pub proof fn lemma_first_at(s: Seq<char>, c: char)
    ensures
        0 <= first_at(s, c) <= s.len(),
        forall|j: int| 0 <= j < first_at(s, c) ==> s[j] != c,
        first_at(s, c) < s.len() ==> s[first_at(s, c)] == c,
    decreases s.len(),
{
    if s.len() == 0 || s[0] == c {
    } else {
        lemma_first_at(s.skip(1), c);
        assert forall|j: int| 0 <= j < first_at(s, c) implies s[j] != c by {
            if j > 0 {
                assert(s.skip(1)[j - 1] == s[j]);
            }
        }
    }
}

/// Where `s` has no `c` before place `i`, and a `c` or its end at `i`,
/// `first_at` is `i`.
pub proof fn lemma_first_at_is(s: Seq<char>, c: char, i: int)
    requires
        0 <= i <= s.len(),
        forall|j: int| 0 <= j < i ==> s[j] != c,
        i < s.len() ==> s[i] == c,
    ensures
        first_at(s, c) == i,
{
    lemma_first_at(s, c);
    let f = first_at(s, c);
    if f < i {
        assert(s[f] != c);
    } else if i < f {
        assert(s[i] != c);
    }
}

/// Splits `s` at every `c`.
pub fn split_text(s: &str, c: char) -> (pieces: Vec<String>)
    ensures
        texts(pieces@) == split(s@, c),
        pieces@.len() >= 1,
{
    let n = s.unicode_len();
    let mut pieces: Vec<String> = Vec::new();
    let mut start: usize = 0;
    let mut i: usize = 0;
    proof {
        assert(s@.skip(0) =~= s@);
        assert(texts(pieces@) + split(s@, c) =~= split(s@, c));
    }
    while i < n
        invariant
            n == s@.len(),
            start <= i <= n,
            forall|j: int| start <= j < i ==> s@[j] != c,
            split(s@, c) == texts(pieces@) + split(s@.skip(start as int), c),
        decreases n - i,
    {
        if s.get_char(i) == c {
            let piece = s.substring_char(start, i);
            proof {
                let rest = s@.skip(start as int);
                assert forall|j: int| 0 <= j < i - start implies rest[j] != c by {
                    assert(rest[j] == s@[start + j]);
                }
                lemma_first_at_is(rest, c, i - start);
                assert(rest.take(i - start) =~= s@.subrange(start as int, i as int));
                assert(rest.skip(i - start + 1) =~= s@.skip(i + 1));
            }
            let ghost before = pieces@;
            let owned = piece.to_owned();
            pieces.push(owned);
            proof {
                assert(texts(pieces@) =~= texts(before) + seq![piece@]);
                assert(texts(before) + (seq![piece@] + split(s@.skip(i + 1), c)) =~= (texts(before) + seq![
                    piece@,
                ]) + split(s@.skip(i + 1), c));
            }
            start = i + 1;
        }
        i += 1;
    }
    let last = s.substring_char(start, n);
    proof {
        let rest = s@.skip(start as int);
        assert forall|j: int| 0 <= j < n - start implies rest[j] != c by {
            assert(rest[j] == s@[start + j]);
        }
        lemma_first_at_is(rest, c, n - start);
        assert(rest =~= last@);
    }
    let ghost before = pieces@;
    pieces.push(last.to_owned());
    proof {
        assert(texts(pieces@) =~= texts(before) + seq![last@]);
    }
    pieces
}

/// What a parser makes of one label.
#[derive(Debug, Clone, Copy, PartialEq, Eq, Structural)]
pub enum UsernameLabelState {
    /// The parser took the label.
    Used,
    /// The parser has no use for the label.
    Ignored,
    /// The label is wrong, and with it the username.
    Abort,
}

/// Why a username could not be read.
#[derive(Debug, Clone, Copy, PartialEq, Eq, Structural)]
pub enum UsernameError {
    /// There is nothing before the first separator.
    EmptyUsername,
    /// The parser had no use for the label of this number, counted from 0.
    IgnoredLabel(usize),
    /// The parser refused the label of this number, counted from 0.
    InvalidLabel(usize),
    /// The parser took every label and then could not conclude.
    Build,
}

/// A reader of the labels of a username. It is shown the labels one by
/// one and at the end says which facts it read from them.
///
/// An implementation states its own behaviour as functions of the state
/// it has reached, its view: what it makes of a label, the state after a
/// label that it took, and the facts at the end.
pub trait UsernameLabelParser: View + Sized {
    /// The state of a parser that has seen no label.
    spec fn initial() -> Self::V;

    /// What a parser in state `state` makes of `label`.
    spec fn verdict(state: Self::V, label: Seq<char>) -> UsernameLabelState;

    /// The state after the parser took `label`.
    spec fn taken(state: Self::V, label: Seq<char>) -> Self::V;

    /// The facts that a parser in state `state` read, or nothing where it
    /// cannot conclude.
    spec fn concluded(state: Self::V) -> Option<Map<FactKind, FactView>>;

    /// A parser that has seen no label.
    fn create() -> (parser: Self)
        ensures
            parser@ == Self::initial(),
    ;

    /// Shows the parser one label.
    fn parse_label(&mut self, label: &str) -> (state: UsernameLabelState)
        ensures
            state == Self::verdict(old(self)@, label@),
            state == UsernameLabelState::Used ==> final(self)@ == Self::taken(old(self)@, label@),
    ;

    /// Ends the reading: puts the facts read into `ext`, or fails and
    /// leaves `ext` as it was.
    fn build(self, ext: &mut Extensions) -> (done: bool)
        ensures
            match Self::concluded(self@) {
                Some(facts) => done && final(ext)@ == old(ext)@.union_prefer_right(facts),
                None => !done && final(ext)@ == old(ext)@,
            },
    ;
}

/// Where a parser that starts in `state` and is shown `labels` ends: the
/// state it reaches, or the error at the first label that it does not
/// take. `number` is the number of the first of `labels`.
pub open spec fn shown<P: UsernameLabelParser>(
    state: P::V,
    labels: Seq<Seq<char>>,
    number: nat,
) -> Result<P::V, UsernameError>
    decreases labels.len(),
{
    if labels.len() == 0 {
        Ok(state)
    } else {
        match P::verdict(state, labels[0]) {
            UsernameLabelState::Used => shown::<P>(P::taken(state, labels[0]), labels.skip(1), number + 1),
            UsernameLabelState::Ignored => Err(UsernameError::IgnoredLabel(number as usize)),
            UsernameLabelState::Abort => Err(UsernameError::InvalidLabel(number as usize)),
        }
    }
}

/// What reading `username` with a parser of type `P` in state `state`
/// yields: the name before the first separator and the facts that the
/// parser read from the labels after it.
pub open spec fn username_of<P: UsernameLabelParser>(
    state: P::V,
    username: Seq<char>,
    separator: char,
) -> Result<(Seq<char>, Map<FactKind, FactView>), UsernameError> {
    let pieces = split(username, separator);
    if pieces[0].len() == 0 {
        Err(UsernameError::EmptyUsername)
    } else {
        match shown::<P>(state, pieces.skip(1), 0) {
            Err(e) => Err(e),
            Ok(state) => match P::concluded(state) {
                Some(facts) => Ok((pieces[0], facts)),
                None => Err(UsernameError::Build),
            },
        }
    }
}

/// Reads a username with labels, separated by `-`. See
/// [`parse_username_with_separator`].
pub fn parse_username<P: UsernameLabelParser>(ext: &mut Extensions, parser: P, username: &str) -> (name:
    Result<String, UsernameError>)
    ensures
        match username_of::<P>(parser@, username@, DEFAULT_USERNAME_LABEL_SEPARATOR) {
            Ok((base, facts)) => {
                &&& name is Ok
                &&& name->Ok_0@ == base
                &&& final(ext)@ == old(ext)@.union_prefer_right(facts)
            },
            Err(e) => name == Err::<String, UsernameError>(e) && final(ext)@ == old(ext)@,
        },
{
    parse_username_with_separator(ext, parser, username, DEFAULT_USERNAME_LABEL_SEPARATOR)
}

/// Reads a username with labels: the name is what stands before the first
/// separator, and each piece after it is a label, shown to `parser` in
/// order. On success the facts that the parser read are put into `ext`
/// and the name is returned. It fails, and leaves `ext` as it was, where
/// the name is empty, where the parser does not take a label, or where it
/// cannot conclude.
pub fn parse_username_with_separator<P: UsernameLabelParser>(
    ext: &mut Extensions,
    parser: P,
    username: &str,
    separator: char,
) -> (name: Result<String, UsernameError>)
    ensures
        match username_of::<P>(parser@, username@, separator) {
            Ok((base, facts)) => {
                &&& name is Ok
                &&& name->Ok_0@ == base
                &&& final(ext)@ == old(ext)@.union_prefer_right(facts)
            },
            Err(e) => name == Err::<String, UsernameError>(e) && final(ext)@ == old(ext)@,
        },
{
    let mut reader = parser;
    let pieces = split_text(username, separator);
    if pieces[0].as_str().unicode_len() == 0 {
        return Err(UsernameError::EmptyUsername);
    }
    let ghost labels = texts(pieces@).skip(1);
    let mut i: usize = 1;
    proof {
        assert(labels.skip(0) =~= labels);
    }
    while i < pieces.len()
        invariant
            1 <= i <= pieces.len(),
            labels == texts(pieces@).skip(1),
            texts(pieces@) == split(username@, separator),
            pieces@[0]@.len() > 0,
            shown::<P>(parser@, labels, 0) == shown::<P>(reader@, labels.skip(i - 1), (i - 1) as nat),
            *ext == *old(ext),
        decreases pieces.len() - i,
    {
        let ghost rest = labels.skip(i - 1);
        assert(rest[0] == pieces@[i as int]@);
        assert(rest.skip(1) =~= labels.skip(i as int));
        match reader.parse_label(pieces[i].as_str()) {
            UsernameLabelState::Used => {},
            UsernameLabelState::Ignored => {
                return Err(UsernameError::IgnoredLabel(i - 1));
            },
            UsernameLabelState::Abort => {
                return Err(UsernameError::InvalidLabel(i - 1));
            },
        }
        i += 1;
    }
    assert(labels.skip(i - 1).len() == 0);
    if reader.build(ext) {
        Ok(pieces[0].clone())
    } else {
        Err(UsernameError::Build)
    }
}

/// A parser that takes every label as it is and reports the labels, in
/// order, as one fact. A username without labels yields no fact.
#[derive(Debug)]
pub struct UsernameOpaqueLabelParser {
    labels: Vec<String>,
}

impl View for UsernameOpaqueLabelParser {
    type V = Seq<Seq<char>>;

    closed spec fn view(&self) -> Seq<Seq<char>> {
        texts(self.labels@)
    }
}

impl UsernameOpaqueLabelParser {
    /// A parser that has seen no label.
    pub fn new() -> (parser: Self)
        ensures
            parser@ == Seq::<Seq<char>>::empty(),
    {
        let parser = UsernameOpaqueLabelParser { labels: Vec::new() };
        assert(parser@ =~= Seq::<Seq<char>>::empty());
        parser
    }
}

impl Default for UsernameOpaqueLabelParser {
    fn default() -> (parser: Self)
        ensures
            parser@ == Seq::<Seq<char>>::empty(),
    {
        UsernameOpaqueLabelParser::new()
    }
}

impl UsernameLabelParser for UsernameOpaqueLabelParser {
    open spec fn initial() -> Seq<Seq<char>> {
        Seq::empty()
    }

    open spec fn verdict(state: Seq<Seq<char>>, label: Seq<char>) -> UsernameLabelState {
        UsernameLabelState::Used
    }

    open spec fn taken(state: Seq<Seq<char>>, label: Seq<char>) -> Seq<Seq<char>> {
        state.push(label)
    }

    open spec fn concluded(state: Seq<Seq<char>>) -> Option<Map<FactKind, FactView>> {
        if state.len() == 0 {
            Some(Map::empty())
        } else {
            Some(Map::empty().insert(FactKind::UsernameLabels, FactView::UsernameLabels(state)))
        }
    }

    fn create() -> (parser: Self) {
        UsernameOpaqueLabelParser::new()
    }

    fn parse_label(&mut self, label: &str) -> (state: UsernameLabelState) {
        let ghost before = self.labels@;
        let owned = label.to_owned();
        self.labels.push(owned);
        assert(texts(self.labels@) =~= texts(before).push(label@));
        UsernameLabelState::Used
    }

    fn build(self, ext: &mut Extensions) -> (done: bool) {
        if self.labels.len() > 0 {
            let ghost facts = Map::<FactKind, FactView>::empty().insert(
                FactKind::UsernameLabels,
                FactView::UsernameLabels(self@),
            );
            ext.insert(Fact::UsernameLabels(UsernameLabels(self.labels)));
            assert(ext@ =~= old(ext)@.union_prefer_right(facts));
        } else {
            assert(ext@ =~= old(ext)@.union_prefer_right(Map::<FactKind, FactView>::empty()));
        }
        true
    }
}

} // verus!
