//! The client-held form state: a draft of a user plus an edit-mode marker.
//!
//! The form mirrors the server's validation with a deliberately looser
//! pre-flight check, `is_valid`: all three fields non-blank and the email
//! both containing `@` and longer than 3 bytes. It is a UX hint only — it
//! may accept drafts the server later rejects (a 5-byte password) — and the
//! two checks are kept apart on purpose.

use vstd::prelude::*;

use crate::api::{CreateUserRequest, UpdateUserRequest};
use crate::text::{byte_len, contains_char, is_blank, str_contains_char, str_is_blank};

verus! {

/// Mathematical model of the form: each field as its characters, and the
/// edit-mode marker.
#[verifier::ext_equal]
pub struct FormView {
    pub name: Seq<char>,
    pub email: Seq<char>,
    pub password: Seq<char>,
    pub editing_id: Option<i32>,
}

/// The client's pre-flight email check: contains `@` and is longer than 3
/// bytes.
pub open spec fn spec_is_valid_email(email: Seq<char>) -> bool {
    contains_char(email, '@') && byte_len(email) > 3
}

/// The client's pre-flight form check: all three fields non-blank and the
/// email passing `spec_is_valid_email`.
pub open spec fn spec_is_valid(f: FormView) -> bool {
    !is_blank(f.name) && !is_blank(f.email) && !is_blank(f.password) && spec_is_valid_email(f.email)
}

/// Why a draft could not be turned into a request.
#[derive(Clone, Copy, Debug, PartialEq, Eq, Structural)]
pub enum FormError {
    InvalidForm,
    NoEditTarget,
}

impl FormError {
    /// The user-visible text of each failure.
    pub open spec fn spec_message(self) -> Seq<char> {
        match self {
            FormError::InvalidForm => "Invalid form data"@,
            FormError::NoEditTarget => "No user selected for editing"@,
        }
    }

    /// Renders the failure as its user-visible message.
    pub fn message(&self) -> (r: &'static str)
        ensures
            r@ == self.spec_message(),
    {
        match self {
            FormError::InvalidForm => "Invalid form data",
            FormError::NoEditTarget => "No user selected for editing",
        }
    }
}

/// The draft of a user held by the UI session, plus which row is being
/// edited, if any. `editing_id` absent means create mode.
#[derive(Clone, Debug, PartialEq)]
pub struct UserFormState {
    pub name: String,
    pub email: String,
    pub password: String,
    pub editing_id: Option<i32>,
}

impl View for UserFormState {
    type V = FormView;

    open spec fn view(&self) -> FormView {
        FormView {
            name: self.name@,
            email: self.email@,
            password: self.password@,
            editing_id: self.editing_id,
        }
    }
}

impl UserFormState {
    /// An empty form in create mode.
    pub fn new() -> (f: UserFormState)
        ensures
            f@ == (FormView {
                name: Seq::<char>::empty(),
                email: Seq::<char>::empty(),
                password: Seq::<char>::empty(),
                editing_id: None,
            }),
    {
        UserFormState {
            name: String::new(),
            email: String::new(),
            password: String::new(),
            editing_id: None,
        }
    }

    /// A form holding the given values.
    pub fn with_values(
        name: String,
        email: String,
        password: String,
        editing_id: Option<i32>,
    ) -> (f: UserFormState)
        ensures
            f@ == (FormView {
                name: name@,
                email: email@,
                password: password@,
                editing_id: editing_id,
            }),
    {
        UserFormState { name, email, password, editing_id }
    }

    /// The form is in edit mode.
    pub fn is_editing(&self) -> (b: bool)
        ensures
            b == (self@.editing_id is Some),
    {
        self.editing_id.is_some()
    }

    /// The pre-flight check; decided entirely by `spec_is_valid`.
    pub fn is_valid(&self) -> (b: bool)
        ensures
            b == spec_is_valid(self@),
    {
        !str_is_blank(self.name.as_str()) && !str_is_blank(self.email.as_str())
            && !str_is_blank(self.password.as_str()) && self.is_valid_email()
    }

    /// The pre-flight email check; decided entirely by `spec_is_valid_email`.
    pub fn is_valid_email(&self) -> (b: bool)
        ensures
            b == spec_is_valid_email(self@.email),
    {
        str_contains_char(self.email.as_str(), '@') && self.email.as_str().as_bytes().len() > 3
    }

    /// Clears every field and returns to create mode.
    pub fn reset(&mut self)
        ensures
            final(self)@ == (FormView {
                name: Seq::<char>::empty(),
                email: Seq::<char>::empty(),
                password: Seq::<char>::empty(),
                editing_id: None,
            }),
    {
        self.name = String::new();
        self.email = String::new();
        self.password = String::new();
        self.editing_id = None;
    }

    /// Enters edit mode for the row `id`, taking the field values to show;
    /// the password is supplied by the caller (blank in practice — the stored
    /// password is never echoed back for an edit pre-fill).
    pub fn set_for_editing(&mut self, id: i32, name: String, email: String, password: String)
        ensures
            final(self)@ == (FormView {
                name: name@,
                email: email@,
                password: password@,
                editing_id: Some(id),
            }),
    {
        self.name = name;
        self.email = email;
        self.password = password;
        self.editing_id = Some(id);
    }

    /// Turns a valid draft into a create request; a draft failing the
    /// pre-flight check is rejected before any request is built.
    pub fn to_create_request(&self) -> (r: Result<CreateUserRequest, FormError>)
        ensures
            !spec_is_valid(self@) ==> r == Err::<CreateUserRequest, FormError>(
                FormError::InvalidForm,
            ),
            spec_is_valid(self@) ==> (r matches Ok(req) && req.name@ == self@.name && req.email@
                == self@.email && req.password@ == self@.password),
    {
        if !self.is_valid() {
            return Err(FormError::InvalidForm);
        }
        Ok(
            CreateUserRequest {
                name: self.name.clone(),
                email: self.email.clone(),
                password: self.password.clone(),
            },
        )
    }

    /// Turns a valid draft in edit mode into an update request addressed at
    /// the row being edited; a draft failing the pre-flight check is
    /// rejected first, then one with no edit target.
    pub fn to_update_request(&self) -> (r: Result<UpdateUserRequest, FormError>)
        ensures
            !spec_is_valid(self@) ==> r == Err::<UpdateUserRequest, FormError>(
                FormError::InvalidForm,
            ),
            spec_is_valid(self@) && self@.editing_id is None ==> r == Err::<
                UpdateUserRequest,
                FormError,
            >(FormError::NoEditTarget),
            spec_is_valid(self@) && self@.editing_id is Some ==> (r matches Ok(req) && req.id
                == self@.editing_id->0 && req.name@ == self@.name && req.email@ == self@.email
                && req.password@ == self@.password),
    {
        if !self.is_valid() {
            return Err(FormError::InvalidForm);
        }
        match self.editing_id {
            None => Err(FormError::NoEditTarget),
            Some(id) => Ok(
                UpdateUserRequest {
                    id,
                    name: self.name.clone(),
                    email: self.email.clone(),
                    password: self.password.clone(),
                },
            ),
        }
    }
}

impl Default for UserFormState {
    /// The default form is the empty create-mode form.
    fn default() -> (f: UserFormState)
        ensures
            f@ == (FormView {
                name: Seq::<char>::empty(),
                email: Seq::<char>::empty(),
                password: Seq::<char>::empty(),
                editing_id: None,
            }),
    {
        UserFormState::new()
    }
}

} // verus!
