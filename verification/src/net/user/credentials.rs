//! User identities and username-password credentials.

use vstd::prelude::*;
use vstd::string::*;

verus! {

/// Who a request was found to come from.
#[derive(Debug, PartialEq, Eq)]
pub enum UserId {
    /// A user known by name.
    Username(String),
    /// A user who did not say who they are.
    Anonymous,
}

/// The mathematical value of a [`UserId`].
pub enum UserIdView {
    Username(Seq<char>),
    Anonymous,
}

impl View for UserId {
    type V = UserIdView;

    open spec fn view(&self) -> UserIdView {
        match self {
            UserId::Username(name) => UserIdView::Username(name@),
            UserId::Anonymous => UserIdView::Anonymous,
        }
    }
}

impl UserId {
    /// The name of the user, unless anonymous.
    pub fn as_str(&self) -> (name: Option<&str>)
        ensures
            match name {
                Some(n) => self@ == UserIdView::Username(n@),
                None => self@ == UserIdView::Anonymous,
            },
    {
        match self {
            UserId::Username(name) => Some(name.as_str()),
            UserId::Anonymous => None,
        }
    }
}

impl Clone for UserId {
    fn clone(&self) -> (copy: Self)
        ensures
            copy@ == self@,
    {
        match self {
            UserId::Username(name) => UserId::Username(name.clone()),
            UserId::Anonymous => UserId::Anonymous,
        }
    }
}

/// A username with a password.
#[derive(Debug, PartialEq, Eq)]
pub struct Basic {
    username: String,
    password: String,
}

/// The mathematical value of a [`Basic`].
pub struct BasicView {
    pub username: Seq<char>,
    pub password: Seq<char>,
}

impl View for Basic {
    type V = BasicView;

    closed spec fn view(&self) -> BasicView {
        BasicView { username: self.username@, password: self.password@ }
    }
}

impl Basic {
    /// The credentials of the given username and password.
    pub fn new(username: &str, password: &str) -> (basic: Basic)
        ensures
            basic@ == (BasicView { username: username@, password: password@ }),
    {
        Basic { username: username.to_owned(), password: password.to_owned() }
    }

    /// The username.
    pub fn username(&self) -> (username: &str)
        ensures
            username@ == self@.username,
    {
        self.username.as_str()
    }

    /// The password.
    pub fn password(&self) -> (password: &str)
        ensures
            password@ == self@.password,
    {
        self.password.as_str()
    }

    /// Whether both credentials hold the same username and password.
    pub fn same_as(&self, other: &Basic) -> (same: bool)
        ensures
            same == (self@ == other@),
    {
        self.username == other.username && self.password == other.password
    }
}

impl Clone for Basic {
    fn clone(&self) -> (copy: Self)
        ensures
            copy@ == self@,
    {
        Basic { username: self.username.clone(), password: self.password.clone() }
    }
}

} // verus!
