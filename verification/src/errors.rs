//! The error taxonomy consumed by the driver's error-rendering switch.
//!
//! Every fallible screen transition returns the error paired with the screen
//! to resume at; the driver renders a one-line category message plus a
//! dimmed detail line and resumes at the fallback screen.

use vstd::prelude::*;
use vstd::string::StringExecFns;
use crate::dialogue::loader::LoaderError;

verus! {

/// The closed set of failure kinds of the external trading/account service.
#[derive(Clone, PartialEq, Eq, Debug)]
pub enum ServiceError {
    /// The requested resource does not exist server-side.
    NotFound,
    /// The handle carries no valid authentication token.
    MissingAuth,
    /// The server answered, but the answer could not be decoded.
    MalformedResponse(String),
    /// The call never reached the server, or the connection broke.
    Transport(String),
    /// The server understood and refused the request.
    Rejected(String),
    /// A server-side failure outside the expected set.
    UnhandledServer(String),
}

impl ServiceError {
    /// The short category the background task records when a poll dies on
    /// this error.
    pub open spec fn category_spec(self) -> Seq<char> {
        match self {
            ServiceError::NotFound => "not found"@,
            ServiceError::MissingAuth => "missing authentication token"@,
            ServiceError::MalformedResponse(_) => "malformed response"@,
            ServiceError::Transport(_) => "transport error"@,
            ServiceError::Rejected(_) => "rejected by server"@,
            ServiceError::UnhandledServer(_) => "unhandled server error"@,
        }
    }

    /// The message carried by the error, where there is one.
    pub open spec fn detail_spec(self) -> Option<Seq<char>> {
        match self {
            ServiceError::MalformedResponse(s) => Some(s@),
            ServiceError::Transport(s) => Some(s@),
            ServiceError::Rejected(s) => Some(s@),
            ServiceError::UnhandledServer(s) => Some(s@),
            _ => None,
        }
    }

    /// The failure rendered as one line: the category, with the carried
    /// message after it where there is one.
    pub open spec fn message_spec(self) -> Seq<char> {
        match self.detail_spec() {
            Some(d) => self.category_spec() + ": "@ + d,
            None => self.category_spec(),
        }
    }

    /// The failure rendered as one line.
    pub fn message(&self) -> (r: String)
        ensures
            r@ == self.message_spec(),
    {
        let mut m = self.category().to_string();
        match self {
            ServiceError::MalformedResponse(s) => {
                m.append(": ");
                m.append(s.as_str());
            },
            ServiceError::Transport(s) => {
                m.append(": ");
                m.append(s.as_str());
            },
            ServiceError::Rejected(s) => {
                m.append(": ");
                m.append(s.as_str());
            },
            ServiceError::UnhandledServer(s) => {
                m.append(": ");
                m.append(s.as_str());
            },
            _ => {},
        }
        m
    }

    /// The short category of this error.
    pub fn category(&self) -> (r: &'static str)
        ensures
            r@ == self.category_spec(),
    {
        match self {
            ServiceError::NotFound => "not found",
            ServiceError::MissingAuth => "missing authentication token",
            ServiceError::MalformedResponse(_) => "malformed response",
            ServiceError::Transport(_) => "transport error",
            ServiceError::Rejected(_) => "rejected by server",
            ServiceError::UnhandledServer(_) => "unhandled server error",
        }
    }
}

/// Everything a screen handler can fail with.
#[derive(Clone, PartialEq, Eq, Debug)]
pub enum AppError {
    /// A service call failed.
    Service(ServiceError),
    /// An accepted snipe later resolved to an error.
    PendingSnipe(String),
    /// The busy indicator's cancellation watcher failed.
    Loader(LoaderError),
    /// A prompt widget itself failed.
    Dialogue(String),
    /// The operator aborted a prompt whose screen cannot fall through.
    PromptAborted,
    /// A screen needed an active project and found none.
    ProjectNotFound,
    /// A screen needed a logged-in user and found none.
    UserNotFound,
    /// A snipe asked for more wallets than the user owns.
    WalletCountExceedsAvailable,
    /// A failure outside the expected set.
    Unhandled(String),
}

impl AppError {
    /// The one-line category message the driver renders for this error.
    pub fn headline(&self) -> (r: &'static str)
        ensures
            r@ == self.headline_spec(),
    {
        match self {
            AppError::Service(ServiceError::NotFound) => "Requested resource was not found",
            AppError::Service(ServiceError::MissingAuth) => "Authorization failed",
            AppError::Service(ServiceError::MalformedResponse(_)) => "Malformed server response",
            AppError::Service(ServiceError::Transport(_)) => "Transport error",
            AppError::Service(ServiceError::Rejected(_)) => "Not accepted",
            AppError::Service(ServiceError::UnhandledServer(_)) => "Unhandled server error occurred",
            AppError::PendingSnipe(_) => "Pending snipe failed",
            AppError::Loader(_) => "Load failed",
            AppError::Dialogue(_) => "Dialogue error occurred",
            AppError::PromptAborted => "Input aborted",
            AppError::ProjectNotFound => "Project not found",
            AppError::UserNotFound => "Unable to find user",
            AppError::WalletCountExceedsAvailable => "Wallet amount exceeds available wallets",
            AppError::Unhandled(_) => "Unhandled error occurred",
        }
    }

    /// The category message as a sequence of characters.
    pub open spec fn headline_spec(self) -> Seq<char> {
        match self {
            AppError::Service(ServiceError::NotFound) => "Requested resource was not found"@,
            AppError::Service(ServiceError::MissingAuth) => "Authorization failed"@,
            AppError::Service(ServiceError::MalformedResponse(_)) => "Malformed server response"@,
            AppError::Service(ServiceError::Transport(_)) => "Transport error"@,
            AppError::Service(ServiceError::Rejected(_)) => "Not accepted"@,
            AppError::Service(ServiceError::UnhandledServer(_)) => "Unhandled server error occurred"@,
            AppError::PendingSnipe(_) => "Pending snipe failed"@,
            AppError::Loader(_) => "Load failed"@,
            AppError::Dialogue(_) => "Dialogue error occurred"@,
            AppError::PromptAborted => "Input aborted"@,
            AppError::ProjectNotFound => "Project not found"@,
            AppError::UserNotFound => "Unable to find user"@,
            AppError::WalletCountExceedsAvailable => "Wallet amount exceeds available wallets"@,
            AppError::Unhandled(_) => "Unhandled error occurred"@,
        }
    }

    /// The dimmed detail line, where the error carries one.
    pub fn detail(&self) -> (r: Option<&String>)
        ensures
            match self {
                AppError::Service(ServiceError::MalformedResponse(s)) => r == Some(s),
                AppError::Service(ServiceError::Transport(s)) => r == Some(s),
                AppError::Service(ServiceError::Rejected(s)) => r == Some(s),
                AppError::Service(ServiceError::UnhandledServer(s)) => r == Some(s),
                AppError::PendingSnipe(s) => r == Some(s),
                AppError::Dialogue(s) => r == Some(s),
                AppError::Unhandled(s) => r == Some(s),
                AppError::Loader(LoaderError::IoError(s)) => r == Some(s),
                AppError::Loader(LoaderError::JoinError(s)) => r == Some(s),
                _ => r is None,
            },
    {
        match self {
            AppError::Service(ServiceError::MalformedResponse(s)) => Some(s),
            AppError::Service(ServiceError::Transport(s)) => Some(s),
            AppError::Service(ServiceError::Rejected(s)) => Some(s),
            AppError::Service(ServiceError::UnhandledServer(s)) => Some(s),
            AppError::PendingSnipe(s) => Some(s),
            AppError::Dialogue(s) => Some(s),
            AppError::Unhandled(s) => Some(s),
            AppError::Loader(LoaderError::IoError(s)) => Some(s),
            AppError::Loader(LoaderError::JoinError(s)) => Some(s),
            _ => None,
        }
    }
}

} // verus!
