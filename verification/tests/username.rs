use rama::context::extensions::Extensions;
use rama::utils::username::{
    parse_username, parse_username_with_separator, split_text, UsernameError, UsernameLabelParser,
    UsernameLabelState, UsernameOpaqueLabelParser,
};
use vstd::view::View;

/// A parser with opinions: it has no use for the label `skip`, refuses
/// the label `bad`, takes every other label, and cannot conclude after
/// the label `half`.
struct Picky {
    halved: bool,
}

impl View for Picky {
    type V = bool;

    fn view(&self) -> bool {
        self.halved
    }
}

impl UsernameLabelParser for Picky {
    fn initial() -> bool {
        false
    }

    fn verdict(_state: bool, _label: vstd::seq::Seq<char>) -> UsernameLabelState {
        unreachable!("only the proofs of the library read this")
    }

    fn taken(_state: bool, _label: vstd::seq::Seq<char>) -> bool {
        unreachable!("only the proofs of the library read this")
    }

    fn concluded(
        _state: bool,
    ) -> Option<
        vstd::map::Map<rama::context::extensions::FactKind, rama::context::extensions::FactView>,
    > {
        unreachable!("only the proofs of the library read this")
    }

    fn create() -> Self {
        Picky { halved: false }
    }

    fn parse_label(&mut self, label: &str) -> UsernameLabelState {
        match label {
            "skip" => UsernameLabelState::Ignored,
            "bad" => UsernameLabelState::Abort,
            "half" => {
                self.halved = true;
                UsernameLabelState::Used
            }
            _ => UsernameLabelState::Used,
        }
    }

    fn build(self, _ext: &mut Extensions) -> bool {
        !self.halved
    }
}

#[test]
fn a_label_that_is_not_taken_ends_the_reading() {
    let mut ext = Extensions::new();
    assert_eq!(parse_username(&mut ext, Picky::create(), "john-a-b"), Ok("john".to_owned()));
    assert_eq!(
        parse_username(&mut ext, Picky::create(), "john-a-skip-b"),
        Err(UsernameError::IgnoredLabel(1))
    );
    assert_eq!(
        parse_username(&mut ext, Picky::create(), "john-bad"),
        Err(UsernameError::InvalidLabel(0))
    );
    assert_eq!(
        parse_username(&mut ext, Picky::create(), "john-a-b-bad-skip"),
        Err(UsernameError::InvalidLabel(2))
    );
    assert_eq!(parse_username(&mut ext, Picky::create(), "john-half"), Err(UsernameError::Build));
    assert!(ext.is_empty());
}

#[test]
fn split_text_cuts_at_every_separator() {
    assert_eq!(split_text("john-green-red", '-'), vec!["john", "green", "red"]);
    assert_eq!(split_text("john", '-'), vec!["john"]);
    assert_eq!(split_text("", '-'), vec![""]);
    assert_eq!(split_text("-", '-'), vec!["", ""]);
    assert_eq!(split_text("a--b-", '-'), vec!["a", "", "b", ""]);
}

#[test]
fn username_with_labels_is_read() {
    let mut ext = Extensions::new();
    let name = parse_username(&mut ext, UsernameOpaqueLabelParser::new(), "john-green-red").unwrap();
    assert_eq!(name, "john");
    assert_eq!(ext.username_labels().unwrap().0, vec!["green".to_owned(), "red".to_owned()]);
}

#[test]
fn username_without_labels_yields_no_fact() {
    let mut ext = Extensions::new();
    let name = parse_username(&mut ext, UsernameOpaqueLabelParser::default(), "john").unwrap();
    assert_eq!(name, "john");
    assert!(ext.is_empty());
}

#[test]
fn empty_username_is_refused() {
    let mut ext = Extensions::new();
    assert_eq!(
        parse_username(&mut ext, UsernameOpaqueLabelParser::new(), ""),
        Err(UsernameError::EmptyUsername)
    );
    assert_eq!(
        parse_username(&mut ext, UsernameOpaqueLabelParser::new(), "-green"),
        Err(UsernameError::EmptyUsername)
    );
    assert!(ext.is_empty());
}

#[test]
fn another_separator_can_be_chosen() {
    let mut ext = Extensions::new();
    let name =
        parse_username_with_separator(&mut ext, UsernameOpaqueLabelParser::new(), "john-doe+a+b", '+')
            .unwrap();
    assert_eq!(name, "john-doe");
    assert_eq!(ext.username_labels().unwrap().0, vec!["a".to_owned(), "b".to_owned()]);
    assert_eq!(UsernameLabelState::Used, UsernameOpaqueLabelParser::create().parse_label("x"));
}
