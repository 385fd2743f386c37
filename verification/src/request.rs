//! The request record and the checks that guard its construction.

use crate::text::converts_to;
use crate::text::lowercase;
use vstd::prelude::*;

verus! {

/// The largest number of characters a name may have.
pub const NAME_MAX_CHARS: usize = 50;

/// The message reported for an empty name.
pub const NAME_BLANK: &'static str = "Name must not be blank";

/// The message reported for a name longer than [`NAME_MAX_CHARS`] characters.
pub const NAME_TOO_LONG: &'static str = "Name must not be more than 50 chars";

/// The message reported for an empty email.
pub const EMAIL_BLANK: &'static str = "Email must not be blank";

/// A name and an email address.
#[derive(Debug)]
pub struct Request {
    name: String,
    email: String,
}

/// The mathematical content of a [`Request`]: its two texts.
pub struct RequestView {
    pub name: Seq<char>,
    pub email: Seq<char>,
}

impl View for Request {
    type V = RequestView;

    closed spec fn view(&self) -> RequestView {
        RequestView { name: self.name@, email: self.email@ }
    }
}

impl Request {
    /// Turns a message into the failed result that carries it.
    pub fn err_from_str(s: &str) -> (r: Result<Self, String>)
        ensures
            r matches Err(message) && message@ == s@,
    {
        Err(String::from(s))
    }

    /// Passes the request through unchanged if its name is not empty, and
    /// fails with [`NAME_BLANK`] otherwise.
    pub fn validate_name(self) -> (r: Result<Self, String>)
        ensures
            match r {
                Ok(same) => self@.name.len() > 0 && same == self,
                Err(message) => self@.name.len() == 0 && message@ == NAME_BLANK@,
            },
    {
        if self.name.as_str().is_empty() {
            Self::err_from_str(NAME_BLANK)
        } else {
            Ok(self)
        }
    }

    /// Passes the request through unchanged if its name has at most
    /// [`NAME_MAX_CHARS`] characters, and fails with [`NAME_TOO_LONG`]
    /// otherwise.
    pub fn validate_name_len(self) -> (r: Result<Self, String>)
        ensures
            match r {
                Ok(same) => self@.name.len() <= NAME_MAX_CHARS && same == self,
                Err(message) => self@.name.len() > NAME_MAX_CHARS && message@ == NAME_TOO_LONG@,
            },
    {
        if self.name.as_str().unicode_len() > NAME_MAX_CHARS {
            Self::err_from_str(NAME_TOO_LONG)
        } else {
            Ok(self)
        }
    }

    /// Passes the request through unchanged if its email is not empty, and
    /// fails with [`EMAIL_BLANK`] otherwise.
    pub fn validate_email(self) -> (r: Result<Self, String>)
        ensures
            match r {
                Ok(same) => self@.email.len() > 0 && same == self,
                Err(message) => self@.email.len() == 0 && message@ == EMAIL_BLANK@,
            },
    {
        if self.email.as_str().is_empty() {
            Self::err_from_str(EMAIL_BLANK)
        } else {
            Ok(self)
        }
    }

    /// Runs the three checks in order and stops at the first that fails.
    pub fn combined_validation(self) -> (r: Result<Self, String>)
        ensures
            match r {
                Ok(same) => self@.rejection() is None && same == self,
                Err(message) => self@.rejection() == Some(message@),
            },
    {
        let named = self.validate_name()?;
        let sized = named.validate_name_len()?;
        sized.validate_email()
    }

    /// Replaces the email by its lowercase form and keeps the name.
    pub fn canonicalize_email(self) -> (r: Self)
        ensures
            r@ == self@.normalized(),
    {
        Request { email: self.email.as_str().to_lowercase(), ..self }
    }

    /// Validates the request and, only if every check passed, lowercases its
    /// email.
    pub fn usecase(self) -> (r: Result<Self, String>)
        ensures
            self@.is_outcome(r),
    {
        match self.combined_validation() {
            Ok(valid) => Ok(valid.canonicalize_email()),
            Err(message) => Err(message),
        }
    }

    /// Builds a request from a name and an email given as anything that
    /// converts into a `String`.
    ///
    /// The two texts are checked in a fixed order: the name must not be
    /// empty, the name must have at most [`NAME_MAX_CHARS`] characters, and
    /// the email must not be empty. The first check that fails decides the
    /// message returned. If all pass, the request holds the name as given and
    /// the email in lowercase.
    ///
    /// The texts checked are those that `name` and `email` convert to; for a
    /// string slice or an owned string these are its own characters.
    pub fn new<S, U>(name: S, email: U) -> (r: Result<Self, String>) where
        S: Into<String>,
        U: Into<String>,

        ensures
            exists|n: Seq<char>, e: Seq<char>|
                #![trigger converts_to(name, n), converts_to(email, e)]
                converts_to(name, n) && converts_to(email, e)
                    && (RequestView { name: n, email: e }).is_outcome(r),
    {
        let candidate = Request { name: name.into(), email: email.into() };
        proof {
            assert(converts_to(name, candidate@.name));
            assert(converts_to(email, candidate@.email));
        }
        candidate.usecase()
    }

    /// The name of the request.
    pub fn name(&self) -> (r: &str)
        ensures
            r@ == self@.name,
    {
        self.name.as_str()
    }

    /// The email of the request.
    pub fn email(&self) -> (r: &str)
        ensures
            r@ == self@.email,
    {
        self.email.as_str()
    }
}

impl RequestView {
    /// The message of the first check that the two texts fail, if any.
    pub open spec fn rejection(self) -> Option<Seq<char>> {
        if self.name.len() == 0 {
            Some(NAME_BLANK@)
        } else if self.name.len() > NAME_MAX_CHARS {
            Some(NAME_TOO_LONG@)
        } else if self.email.len() == 0 {
            Some(EMAIL_BLANK@)
        } else {
            None
        }
    }

    /// The same name with the email in lowercase.
    pub open spec fn normalized(self) -> RequestView {
        RequestView { name: self.name, email: lowercase(self.email) }
    }

    /// What construction from these two texts yields: the first failing
    /// check's message, or else the normalized request.
    pub open spec fn outcome(self) -> Result<RequestView, Seq<char>> {
        match self.rejection() {
            Some(message) => Err(message),
            None => Ok(self.normalized()),
        }
    }

    /// Whether `r` is the result of constructing a request from these two
    /// texts.
    pub open spec fn is_outcome(self, r: Result<Request, String>) -> bool {
        match r {
            Ok(request) => self.outcome() == Ok::<RequestView, Seq<char>>(request@),
            Err(message) => self.outcome() == Err::<RequestView, Seq<char>>(message@),
        }
    }
}

} // verus!
