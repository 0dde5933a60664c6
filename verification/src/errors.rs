//! The outcomes that an operation of the repository can report.

use vstd::prelude::*;

verus! {

/// Why an operation gave no value.
#[derive(Clone, Copy, Debug, PartialEq, Eq, Structural)]
pub enum Reason {
    NoChannel,
    ChannelExists,
    NoCommand,
    CommandExists,
    CommandDoesNotExist,
    InvalidCount,
    InvalidOperator,
    NoState,
    NoAuthorization,
    NoQuote,
    NoQuotes,
    AlreadyTrusted,
    NoTrust,
    TrustDoesNotExist,
    NoAlias,
    NoSocials,
    NoSocialService,
    NoOffences,
    InvalidOffenceType,
}

impl Reason {
    /// The words in which the reason is reported.
    pub open spec fn text(self) -> Seq<char> {
        match self {
            Reason::NoChannel => "no channel"@,
            Reason::ChannelExists => "channel with name exists"@,
            Reason::NoCommand => "no command"@,
            Reason::CommandExists => "command exists"@,
            Reason::CommandDoesNotExist => "command does not exist"@,
            Reason::InvalidCount => "invalid count"@,
            Reason::InvalidOperator => "invalid operator"@,
            Reason::NoState => "no state for provided channel"@,
            Reason::NoAuthorization => "no auth for service"@,
            Reason::NoQuote => "no quote"@,
            Reason::NoQuotes => "no quotes"@,
            Reason::AlreadyTrusted => "already trusted"@,
            Reason::NoTrust => "no trust for user"@,
            Reason::TrustDoesNotExist => "trust does not exist"@,
            Reason::NoAlias => "no alias"@,
            Reason::NoSocials => "no socials"@,
            Reason::NoSocialService => "no social service"@,
            Reason::NoOffences => "no offences"@,
            Reason::InvalidOffenceType => "invalid offence type"@,
        }
    }

    /// The words in which the reason is reported.
    pub fn message(&self) -> (r: String)
        ensures
            r@ == self.text(),
    {
        let words = match self {
            Reason::NoChannel => "no channel",
            Reason::ChannelExists => "channel with name exists",
            Reason::NoCommand => "no command",
            Reason::CommandExists => "command exists",
            Reason::CommandDoesNotExist => "command does not exist",
            Reason::InvalidCount => "invalid count",
            Reason::InvalidOperator => "invalid operator",
            Reason::NoState => "no state for provided channel",
            Reason::NoAuthorization => "no auth for service",
            Reason::NoQuote => "no quote",
            Reason::NoQuotes => "no quotes",
            Reason::AlreadyTrusted => "already trusted",
            Reason::NoTrust => "no trust for user",
            Reason::TrustDoesNotExist => "trust does not exist",
            Reason::NoAlias => "no alias",
            Reason::NoSocials => "no socials",
            Reason::NoSocialService => "no social service",
            Reason::NoOffences => "no offences",
            Reason::InvalidOffenceType => "invalid offence type",
        };
        words.to_owned()
    }
}

/// A failure of the database itself, in the words of its driver.
#[derive(Debug, PartialEq, Eq)]
pub struct DatabaseFailure {
    pub message: String,
}

impl DeepView for DatabaseFailure {
    type V = Seq<char>;

    open spec fn deep_view(&self) -> Seq<char> {
        self.message@
    }
}

impl View for DatabaseFailure {
    type V = Seq<char>;

    open spec fn view(&self) -> Seq<char> {
        self.deep_view()
    }
}

impl Clone for DatabaseFailure {
    fn clone(&self) -> (r: Self)
        ensures
            r@ == self@,
    {
        DatabaseFailure { message: self.message.clone() }
    }
}

/// The error of an operation of the repository.
#[derive(Debug, PartialEq, Eq)]
pub enum HandlerError {
    /// The database failed; the failure is handed on as it came.
    DatabaseError(DatabaseFailure),
    /// The repository was used before it was connected, or the database
    /// answered something that it was not asked.
    InternalError,
    /// The key names no record.
    NotFound(Reason),
    /// The key names a record already.
    Conflict(Reason),
    /// The request is malformed.
    Validation(Reason),
}

pub enum HandlerErrorView {
    DatabaseError(Seq<char>),
    InternalError,
    NotFound(Reason),
    Conflict(Reason),
    Validation(Reason),
}

impl DeepView for HandlerError {
    type V = HandlerErrorView;

    open spec fn deep_view(&self) -> HandlerErrorView {
        match self {
            HandlerError::DatabaseError(failure) => HandlerErrorView::DatabaseError(failure@),
            HandlerError::InternalError => HandlerErrorView::InternalError,
            HandlerError::NotFound(reason) => HandlerErrorView::NotFound(*reason),
            HandlerError::Conflict(reason) => HandlerErrorView::Conflict(*reason),
            HandlerError::Validation(reason) => HandlerErrorView::Validation(*reason),
        }
    }
}

impl View for HandlerError {
    type V = HandlerErrorView;

    open spec fn view(&self) -> HandlerErrorView {
        self.deep_view()
    }
}

impl Clone for HandlerError {
    fn clone(&self) -> (r: Self)
        ensures
            r@ == self@,
    {
        match self {
            HandlerError::DatabaseError(failure) => HandlerError::DatabaseError(failure.clone()),
            HandlerError::InternalError => HandlerError::InternalError,
            HandlerError::NotFound(reason) => HandlerError::NotFound(*reason),
            HandlerError::Conflict(reason) => HandlerError::Conflict(*reason),
            HandlerError::Validation(reason) => HandlerError::Validation(*reason),
        }
    }
}

impl HandlerError {
    /// The words in which the error is reported.
    pub open spec fn text(self) -> Seq<char> {
        match self {
            HandlerError::DatabaseError(failure) => failure@,
            HandlerError::InternalError => "internal error"@,
            HandlerError::NotFound(reason) => reason.text(),
            HandlerError::Conflict(reason) => reason.text(),
            HandlerError::Validation(reason) => reason.text(),
        }
    }

    /// The words in which the error is reported.
    pub fn message(&self) -> (r: String)
        ensures
            r@ == self.text(),
    {
        match self {
            HandlerError::DatabaseError(failure) => failure.message.clone(),
            HandlerError::InternalError => "internal error".to_owned(),
            HandlerError::NotFound(reason) => reason.message(),
            HandlerError::Conflict(reason) => reason.message(),
            HandlerError::Validation(reason) => reason.message(),
        }
    }
}

} // verus!
