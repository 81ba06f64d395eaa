//! User-related domain types: validated value objects and the `User`
//! aggregate root.

use vstd::prelude::*;

use crate::clock;
use crate::ids;
use crate::text;

verus! {

/// Unique identifier for a [`User`], the 128 bits of a UUID.
pub type UserId = u128;

/// Status of a user account.
#[derive(Debug, Clone, Copy, PartialEq, Eq, Hash, Structural)]
pub enum UserStatus {
    /// Active and usable account.
    Active,
    /// Disabled or deactivated account.
    Inactive,
    /// Suspended due to policy or security reasons.
    Suspended,
}

/// A well-formed email view: non-empty once trimmed, and holding an `'@'`.
pub open spec fn email_ok(s: Seq<char>) -> bool {
    text::trim_spec(s).len() > 0 && text::trim_spec(s).contains('@')
}

/// Email value object with basic validation.
#[derive(Debug, Clone, PartialEq, Eq, Hash, Ord, PartialOrd)]
pub struct Email(String);

impl View for Email {
    type V = Seq<char>;

    closed spec fn view(&self) -> Seq<char> {
        self.0@
    }
}

/// Errors for [`Email`].
#[derive(Debug, Clone, Copy, PartialEq, Eq, Structural)]
pub enum EmailError {
    Empty,
    InvalidFormat,
}

impl Email {
    /// Parses and validates an email: the input is trimmed, must be
    /// non-empty, and must contain an `'@'`.
    pub fn parse(s: &str) -> (r: Result<Email, EmailError>)
        ensures
            match r {
                Ok(e) => email_ok(s@) && e@ == text::trim_spec(s@),
                Err(EmailError::Empty) => text::trim_spec(s@).len() == 0,
                Err(EmailError::InvalidFormat) => text::trim_spec(s@).len() > 0 && !text::trim_spec(
                    s@,
                ).contains('@'),
            },
    {
        let trimmed = text::trim_copy(s);
        if trimmed.as_str().unicode_len() == 0 {
            return Err(EmailError::Empty);
        }
        if !text::contains_char(trimmed.as_str(), '@') {
            return Err(EmailError::InvalidFormat);
        }
        Ok(Email(trimmed))
    }

    #[must_use]
    pub fn as_str(&self) -> (r: &str)
        ensures
            r@ == self@,
    {
        self.0.as_str()
    }
}

/// A well-formed name view: non-empty once trimmed.
pub open spec fn name_ok(s: Seq<char>) -> bool {
    text::trim_spec(s).len() > 0
}

/// Errors for name value objects.
#[derive(Debug, Clone, Copy, PartialEq, Eq, Structural)]
pub enum NameError {
    Empty,
}

/// First name value object (non-empty, trimmed).
#[derive(Debug, Clone, PartialEq, Eq, Hash, Ord, PartialOrd)]
pub struct FirstName(String);

impl View for FirstName {
    type V = Seq<char>;

    closed spec fn view(&self) -> Seq<char> {
        self.0@
    }
}

impl FirstName {
    /// Parses a first name: the input is trimmed and must be non-empty.
    pub fn parse(s: &str) -> (r: Result<FirstName, NameError>)
        ensures
            match r {
                Ok(n) => name_ok(s@) && n@ == text::trim_spec(s@),
                Err(NameError::Empty) => text::trim_spec(s@).len() == 0,
            },
    {
        let trimmed = text::trim_copy(s);
        if trimmed.as_str().unicode_len() == 0 {
            return Err(NameError::Empty);
        }
        Ok(FirstName(trimmed))
    }

    #[must_use]
    pub fn as_str(&self) -> (r: &str)
        ensures
            r@ == self@,
    {
        self.0.as_str()
    }
}

/// Last name value object (non-empty, trimmed).
#[derive(Debug, Clone, PartialEq, Eq, Hash, Ord, PartialOrd)]
pub struct LastName(String);

impl View for LastName {
    type V = Seq<char>;

    closed spec fn view(&self) -> Seq<char> {
        self.0@
    }
}

impl LastName {
    /// Parses a last name: the input is trimmed and must be non-empty.
    pub fn parse(s: &str) -> (r: Result<LastName, NameError>)
        ensures
            match r {
                Ok(n) => name_ok(s@) && n@ == text::trim_spec(s@),
                Err(NameError::Empty) => text::trim_spec(s@).len() == 0,
            },
    {
        let trimmed = text::trim_copy(s);
        if trimmed.as_str().unicode_len() == 0 {
            return Err(NameError::Empty);
        }
        Ok(LastName(trimmed))
    }

    #[must_use]
    pub fn as_str(&self) -> (r: &str)
        ensures
            r@ == self@,
    {
        self.0.as_str()
    }
}

/// Both timestamps of a user lie in the range that the clock hands out.
pub open spec fn user_wf(u: &User) -> bool {
    0 <= u.created_at <= clock::MAX_TIMESTAMP_MILLIS && 0 <= u.updated_at
        <= clock::MAX_TIMESTAMP_MILLIS
}

/// User aggregate root.
#[derive(Debug, Clone, PartialEq, Eq)]
pub struct User {
    /// Unique identifier.
    pub user_id: UserId,
    /// Email address.
    pub email: Email,
    /// First name (given name).
    pub first_name: FirstName,
    /// Last name (family name).
    pub last_name: LastName,
    /// Current status.
    pub status: UserStatus,
    /// Creation timestamp, in milliseconds since the Unix epoch.
    pub created_at: i64,
    /// Last update timestamp, in milliseconds since the Unix epoch.
    pub updated_at: i64,
}

impl User {
    /// Creates a new user with a freshly generated [`UserId`], an active
    /// status, and equal creation and update timestamps.
    #[must_use]
    pub fn new(email: Email, first_name: FirstName, last_name: LastName) -> (r: User)
        ensures
            r.user_id != 0,
            r.email == email,
            r.first_name == first_name,
            r.last_name == last_name,
            r.status == UserStatus::Active,
            r.created_at == r.updated_at,
            user_wf(&r),
    {
        let now = clock::now_millis();
        User {
            user_id: ids::fresh_user_id(),
            email,
            first_name,
            last_name,
            status: UserStatus::Active,
            created_at: now,
            updated_at: now,
        }
    }

    /// Updates `updated_at` to the current time; every other field keeps
    /// its value.
    pub fn touch(&mut self)
        ensures
            final(self).user_id == old(self).user_id,
            final(self).email == old(self).email,
            final(self).first_name == old(self).first_name,
            final(self).last_name == old(self).last_name,
            final(self).status == old(self).status,
            final(self).created_at == old(self).created_at,
            0 <= final(self).updated_at <= clock::MAX_TIMESTAMP_MILLIS,
    {
        self.updated_at = clock::now_millis();
    }
}

} // verus!
