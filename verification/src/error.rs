use vstd::prelude::*;

use crate::data::{Member, MemberView, Repo, RepoView};

verus! {

/// The expected, non-exceptional outcome of a failed policy check, one
/// variant per check, each carrying the evidence its remediation message
/// renders.
#[derive(Debug, PartialEq)]
pub enum AuditError {
    /// Admin accounts with recent push activity.
    AdminsHaveCommits(Vec<Member>),
    /// Two-factor authentication is not required.
    Disabled2Fa,
    /// Configuration disabled every check, so nothing was audited.
    NoAuditsRan,
    /// Repositories whose master branch is unprotected.
    UnProtectedMasterBranches(Vec<Repo>),
}

/// The mathematical value of an [`AuditError`].
pub enum AuditErrorView {
    AdminsHaveCommits(Seq<MemberView>),
    Disabled2Fa,
    NoAuditsRan,
    UnProtectedMasterBranches(Seq<RepoView>),
}

impl View for AuditError {
    type V = AuditErrorView;

    open spec fn view(&self) -> AuditErrorView {
        match self {
            AuditError::AdminsHaveCommits(members) => AuditErrorView::AdminsHaveCommits(
                members.deep_view(),
            ),
            AuditError::Disabled2Fa => AuditErrorView::Disabled2Fa,
            AuditError::NoAuditsRan => AuditErrorView::NoAuditsRan,
            AuditError::UnProtectedMasterBranches(repos) => AuditErrorView::UnProtectedMasterBranches(
                repos.deep_view(),
            ),
        }
    }
}

/// An error during auditing.
#[derive(Debug, PartialEq)]
pub enum Error {
    /// No authentication token for GitHub was provided, or it lacks the
    /// required permissions. Fatal: raised before any check runs.
    NoAuthKey,
    /// A transport-level failure (connection, non-2xx status, undecodable
    /// body) from the HTTP client, scoped to the check whose fetch failed.
    Http {
        /// What the client reported.
        message: String,
    },
    /// A failed policy check.
    Audit {
        /// Which check failed, with its evidence.
        kind: AuditError,
    },
    /// A required field was absent from an otherwise well-formed response,
    /// scoped to the check that needed it.
    MissingGitHubData,
}

/// The mathematical value of an [`Error`].
pub enum ErrorView {
    NoAuthKey,
    Http { message: Seq<char> },
    Audit { kind: AuditErrorView },
    MissingGitHubData,
}

impl View for Error {
    type V = ErrorView;

    open spec fn view(&self) -> ErrorView {
        match self {
            Error::NoAuthKey => ErrorView::NoAuthKey,
            Error::Http { message } => ErrorView::Http { message: message@ },
            Error::Audit { kind } => ErrorView::Audit { kind: kind@ },
            Error::MissingGitHubData => ErrorView::MissingGitHubData,
        }
    }
}

impl DeepView for Error {
    type V = ErrorView;

    open spec fn deep_view(&self) -> ErrorView {
        self.view()
    }
}

impl Error {
    /// Whether this error is the expected outcome of a failed policy check,
    /// as opposed to a configuration or transport failure.
    pub fn is_audit(&self) -> (r: bool)
        ensures
            r == (self@ matches ErrorView::Audit { .. }),
    {
        match self {
            Error::Audit { .. } => true,
            _ => false,
        }
    }
}

} // verus!
