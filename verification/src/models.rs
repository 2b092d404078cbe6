//! The user entity and its business-rule validation.
//!
//! A `User` is the one persisted record: an optional identifier (absent until
//! the storage backend assigns one), a name, an email and a password.
//! `validate` applies the server-side acceptance rules in a fixed order; its
//! outcome is pinned by the spec function `spec_validate`.

use vstd::prelude::*;

use crate::text::{byte_len, contains_char, is_blank, str_contains_char, str_is_blank};

verus! {

/// Mathematical model of a `User`: the identifier as it stands and each text
/// field as its sequence of characters.
#[verifier::ext_equal]
pub struct UserView {
    pub id: Option<i32>,
    pub name: Seq<char>,
    pub email: Seq<char>,
    pub password: Seq<char>,
}

impl UserView {
    /// The same record with an identifier assigned by the storage layer.
    pub open spec fn with_assigned(self, id: i32) -> UserView {
        UserView { id: Some(id), ..self }
    }

    /// The record at `self`'s identifier with the other fields replaced by
    /// those of `u`; what an update leaves behind.
    pub open spec fn with_fields_of(self, u: UserView) -> UserView {
        UserView { id: self.id, name: u.name, email: u.email, password: u.password }
    }
}

/// The user entity.
#[derive(Debug, PartialEq)]
pub struct User {
    pub id: Option<i32>,
    pub name: String,
    pub email: String,
    pub password: String,
}

impl View for User {
    type V = UserView;

    open spec fn view(&self) -> UserView {
        UserView { id: self.id, name: self.name@, email: self.email@, password: self.password@ }
    }
}

impl DeepView for User {
    type V = UserView;

    open spec fn deep_view(&self) -> UserView {
        self.view()
    }
}

impl Clone for User {
    fn clone(&self) -> (res: Self)
        ensures
            res == self,
    {
        User {
            id: self.id,
            name: self.name.clone(),
            email: self.email.clone(),
            password: self.password.clone(),
        }
    }
}

/// Why a user was rejected by `validate`, one reason per rule.
#[derive(Clone, Copy, Debug, PartialEq, Eq, Structural)]
pub enum ReasonCode {
    EmptyName,
    EmptyEmail,
    InvalidEmailFormat,
    EmptyPassword,
    PasswordTooShort,
}

impl ReasonCode {
    /// The user-visible text of each reason.
    pub open spec fn spec_message(self) -> Seq<char> {
        match self {
            ReasonCode::EmptyName => "Name cannot be empty"@,
            ReasonCode::EmptyEmail => "Email cannot be empty"@,
            ReasonCode::InvalidEmailFormat => "Invalid email format"@,
            ReasonCode::EmptyPassword => "Password cannot be empty"@,
            ReasonCode::PasswordTooShort => "Password must be at least 6 characters"@,
        }
    }

    /// Renders the reason as its user-visible message.
    pub fn message(&self) -> (r: &'static str)
        ensures
            r@ == self.spec_message(),
    {
        match self {
            ReasonCode::EmptyName => "Name cannot be empty",
            ReasonCode::EmptyEmail => "Email cannot be empty",
            ReasonCode::InvalidEmailFormat => "Invalid email format",
            ReasonCode::EmptyPassword => "Password cannot be empty",
            ReasonCode::PasswordTooShort => "Password must be at least 6 characters",
        }
    }
}

/// The validation rules, applied in order with the first failure winning:
/// blank name, blank email, email without `@`, blank password, then raw
/// password length under 6 bytes.
pub open spec fn spec_validate(u: UserView) -> Result<(), ReasonCode> {
    if is_blank(u.name) {
        Err(ReasonCode::EmptyName)
    } else if is_blank(u.email) {
        Err(ReasonCode::EmptyEmail)
    } else if !contains_char(u.email, '@') {
        Err(ReasonCode::InvalidEmailFormat)
    } else if is_blank(u.password) {
        Err(ReasonCode::EmptyPassword)
    } else if byte_len(u.password) < 6 {
        Err(ReasonCode::PasswordTooShort)
    } else {
        Ok(())
    }
}

impl User {
    /// A transient user, not yet persisted.
    pub fn new(name: String, email: String, password: String) -> (u: User)
        ensures
            u@ == (UserView { id: None, name: name@, email: email@, password: password@ }),
    {
        User { id: None, name, email, password }
    }

    /// A user as read back from storage, identifier included.
    pub fn with_id(id: i32, name: String, email: String, password: String) -> (u: User)
        ensures
            u@ == (UserView { id: Some(id), name: name@, email: email@, password: password@ }),
    {
        User { id: Some(id), name, email, password }
    }

    /// Applies the acceptance rules; pure, and decided entirely by
    /// `spec_validate`.
    pub fn validate(&self) -> (r: Result<(), ReasonCode>)
        ensures
            r == spec_validate(self@),
    {
        if str_is_blank(self.name.as_str()) {
            return Err(ReasonCode::EmptyName);
        }
        if str_is_blank(self.email.as_str()) {
            return Err(ReasonCode::EmptyEmail);
        }
        if !str_contains_char(self.email.as_str(), '@') {
            return Err(ReasonCode::InvalidEmailFormat);
        }
        if str_is_blank(self.password.as_str()) {
            return Err(ReasonCode::EmptyPassword);
        }
        if self.password.as_str().as_bytes().len() < 6 {
            return Err(ReasonCode::PasswordTooShort);
        }
        Ok(())
    }
}

/// A user whose name is blank is rejected as `EmptyName`, whatever the other
/// fields hold: the name rule is checked first.
pub proof fn lemma_blank_name_rejected(u: UserView)
    requires
        is_blank(u.name),
    ensures
        spec_validate(u) == Err::<(), ReasonCode>(ReasonCode::EmptyName),
{
}

/// A user with a non-blank name and a blank email is rejected as `EmptyEmail`.
pub proof fn lemma_blank_email_rejected(u: UserView)
    requires
        !is_blank(u.name),
        is_blank(u.email),
    ensures
        spec_validate(u) == Err::<(), ReasonCode>(ReasonCode::EmptyEmail),
{
}

/// A user with non-blank name and email whose email lacks `@` is rejected as
/// `InvalidEmailFormat`.
pub proof fn lemma_email_without_at_rejected(u: UserView)
    requires
        !is_blank(u.name),
        !is_blank(u.email),
        !contains_char(u.email, '@'),
    ensures
        spec_validate(u) == Err::<(), ReasonCode>(ReasonCode::InvalidEmailFormat),
{
}

/// A user with valid name and email and a blank password is rejected as
/// `EmptyPassword`.
pub proof fn lemma_blank_password_rejected(u: UserView)
    requires
        !is_blank(u.name),
        !is_blank(u.email),
        contains_char(u.email, '@'),
        is_blank(u.password),
    ensures
        spec_validate(u) == Err::<(), ReasonCode>(ReasonCode::EmptyPassword),
{
}

/// A user with valid name and email and a short, not all-whitespace password
/// is rejected as `PasswordTooShort`. (A password of fewer than 6 bytes that
/// is all whitespace fails the blank check first instead.)
pub proof fn lemma_short_password_rejected(u: UserView)
    requires
        !is_blank(u.name),
        !is_blank(u.email),
        contains_char(u.email, '@'),
        !is_blank(u.password),
        byte_len(u.password) < 6,
    ensures
        spec_validate(u) == Err::<(), ReasonCode>(ReasonCode::PasswordTooShort),
{
}

/// A user with non-blank name, non-blank email containing `@`, and a not
/// all-whitespace password of at least 6 bytes is accepted. (A password of 6
/// or more bytes that is all whitespace is still rejected as blank.)
pub proof fn lemma_valid_user_accepted(u: UserView)
    requires
        !is_blank(u.name),
        !is_blank(u.email),
        contains_char(u.email, '@'),
        !is_blank(u.password),
        byte_len(u.password) >= 6,
    ensures
        spec_validate(u) is Ok,
{
}

} // verus!
