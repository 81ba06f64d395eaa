//! Error types of the domain, application and infrastructure layers, each
//! with a verified textual rendering.

use vstd::prelude::*;

verus! {

/// Errors raised by the domain layer.
#[derive(Debug)]
pub enum DomainError {
    NotFound,
    InvalidState(&'static str),
}

/// What [`DomainError::message`] returns for each variant.
pub open spec fn domain_message_spec(e: &DomainError) -> Seq<char> {
    match e {
        DomainError::NotFound => "not found"@,
        DomainError::InvalidState(m) => "invalid state: "@ + m@,
    }
}

impl DomainError {
    /// Renders the error as text.
    pub fn message(&self) -> (r: String)
        ensures
            r@ == domain_message_spec(self),
    {
        match self {
            DomainError::NotFound => "not found".to_owned(),
            DomainError::InvalidState(m) => {
                let mut s = "invalid state: ".to_owned();
                s.append(m);
                s
            },
        }
    }
}

/// The kind of an infrastructure failure.
#[derive(Debug, Clone)]
pub enum InfraErrorKind {
    NotFound,
    Conflict,
    Unavailable,
    Unknown,
}

/// The name of an [`InfraErrorKind`], as its debug rendering writes it.
pub open spec fn kind_str_spec(k: &InfraErrorKind) -> Seq<char> {
    match k {
        InfraErrorKind::NotFound => "NotFound"@,
        InfraErrorKind::Conflict => "Conflict"@,
        InfraErrorKind::Unavailable => "Unavailable"@,
        InfraErrorKind::Unknown => "Unknown"@,
    }
}

/// An infrastructure failure: a kind and a free-form message.
#[derive(Debug, Clone)]
pub struct InfraError {
    pub kind: InfraErrorKind,
    pub message: String,
}

/// What [`InfraError::message_text`] returns: the kind's name, a colon
/// and a space, then the message.
pub open spec fn infra_message_spec(e: &InfraError) -> Seq<char> {
    kind_str_spec(&e.kind) + ": "@ + e.message@
}

impl InfraError {
    /// Builds an infrastructure error from its parts.
    pub fn new(kind: InfraErrorKind, message: String) -> (r: InfraError)
        ensures
            r.kind == kind,
            r.message == message,
    {
        InfraError { kind, message }
    }

    /// Renders the error as text: the kind's name, then the message.
    pub fn message_text(&self) -> (r: String)
        ensures
            r@ == infra_message_spec(self),
    {
        let mut s = match &self.kind {
            InfraErrorKind::NotFound => "NotFound".to_owned(),
            InfraErrorKind::Conflict => "Conflict".to_owned(),
            InfraErrorKind::Unavailable => "Unavailable".to_owned(),
            InfraErrorKind::Unknown => "Unknown".to_owned(),
        };
        s.append(": ");
        s.append(self.message.as_str());
        s
    }
}

/// Errors raised by the application layer.
#[derive(Debug)]
pub enum ApplicationError {
    NotFound,
    Infra(String),
}

/// What [`ApplicationError::message`] returns for each variant.
pub open spec fn application_message_spec(e: &ApplicationError) -> Seq<char> {
    match e {
        ApplicationError::NotFound => "not found"@,
        ApplicationError::Infra(m) => "infra error: "@ + m@,
    }
}

impl ApplicationError {
    /// Renders the error as text.
    pub fn message(&self) -> (r: String)
        ensures
            r@ == application_message_spec(self),
    {
        match self {
            ApplicationError::NotFound => "not found".to_owned(),
            ApplicationError::Infra(m) => {
                let mut s = "infra error: ".to_owned();
                s.append(m.as_str());
                s
            },
        }
    }
}

impl ApplicationError {
    /// Wraps an infrastructure failure, keeping its rendered text.
    pub fn from_infra(e: InfraError) -> (r: ApplicationError)
        ensures
            r matches ApplicationError::Infra(m) && m@ == infra_message_spec(&e),
    {
        ApplicationError::Infra(e.message_text())
    }
}

} // verus!
