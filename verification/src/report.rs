use vstd::prelude::*;
use vstd::string::StringExecFns;

use crate::data::{Member, MemberView, Repo, RepoView};
use crate::error::{AuditError, AuditErrorView, Error, ErrorView};

verus! {

/// The login names carried by the evidence, in evidence order; a record
/// without one contributes nothing.
pub open spec fn login_names(ms: Seq<MemberView>) -> Seq<Seq<char>>
    decreases ms.len(),
{
    if ms.len() == 0 {
        Seq::empty()
    } else {
        let rest = login_names(ms.drop_last());
        match ms.last().login {
            Some(l) => rest.push(l),
            None => rest,
        }
    }
}

/// The full names carried by the evidence, in evidence order; a record
/// without one contributes nothing.
pub open spec fn repo_names(rs: Seq<RepoView>) -> Seq<Seq<char>>
    decreases rs.len(),
{
    if rs.len() == 0 {
        Seq::empty()
    } else {
        let rest = repo_names(rs.drop_last());
        match rs.last().full_name {
            Some(n) => rest.push(n),
            None => rest,
        }
    }
}

/// The parts joined with a single space between each two.
pub open spec fn join_spaced(parts: Seq<Seq<char>>) -> Seq<char>
    decreases parts.len(),
{
    if parts.len() == 0 {
        Seq::empty()
    } else if parts.len() == 1 {
        parts[0]
    } else {
        join_spaced(parts.drop_last()) + " "@ + parts.last()
    }
}

/// The observation half of a failure's message: what was seen.
pub open spec fn spec_observation(e: AuditErrorView) -> Seq<char> {
    match e {
        AuditErrorView::AdminsHaveCommits(ms) => "Admins ("@ + join_spaced(login_names(ms))
            + ") have push activity. This is usually an indication that admin members are using their accounts for purposes other than administration."@,
        AuditErrorView::Disabled2Fa => "2 Factor Authentication is not required for members of the organisation."@,
        AuditErrorView::NoAuditsRan => "No audits were performed."@,
        AuditErrorView::UnProtectedMasterBranches(rs) => "Repositories ("@ + join_spaced(
            repo_names(rs),
        ) + ") have unprotected master branches. This could lead to accidental data loss."@,
    }
}

/// The recommendation half of a failure's message: what to do about it.
pub open spec fn spec_recommendation(e: AuditErrorView) -> Seq<char> {
    match e {
        AuditErrorView::AdminsHaveCommits(_) => "Create separate accounts for administration access to the organisation."@,
        AuditErrorView::Disabled2Fa => "Enable 2 Factor as a requirement for members."@,
        AuditErrorView::NoAuditsRan => "Adjust your configuration to enable some of audit procedures."@,
        AuditErrorView::UnProtectedMasterBranches(_) => "Protect master branches and require all commits are made through PRs."@,
    }
}

/// A failure's full two-part message.
pub open spec fn spec_message(e: AuditErrorView) -> Seq<char> {
    "Warning:\n"@ + spec_observation(e) + "\n\nRecommendation:\n"@ + spec_recommendation(e)
        + "\n"@
}

/// Any error's rendering: audit failures render their two-part message,
/// the other kinds a fixed description.
pub open spec fn spec_error_message(e: ErrorView) -> Seq<char> {
    match e {
        ErrorView::NoAuthKey => "No authentication key for GitHub provided."@,
        ErrorView::Http { message } => "Error from HTTP client: "@ + message,
        ErrorView::Audit { kind } => spec_message(kind),
        ErrorView::MissingGitHubData => "Unexpected key missing from GitHub data."@,
    }
}

/// The login names of the evidence, in order.
fn logins_of(ms: &Vec<Member>) -> (r: Vec<String>)
    ensures
        r.deep_view() == login_names(ms.deep_view()),
{
    let ghost gl = ms.deep_view();
    let mut r: Vec<String> = Vec::new();
    let mut i: usize = 0;
    while i < ms.len()
        invariant
            i <= ms.len(),
            gl == ms.deep_view(),
            gl.len() == ms@.len(),
            r.deep_view() == login_names(gl.take(i as int)),
        decreases ms@.len() - i,
    {
        let ghost pre = r.deep_view();
        match &ms[i].login {
            Some(l) => {
                r.push(l.clone());
                proof {
                    assert(r.deep_view() =~= pre.push(gl[i as int].login->Some_0));
                }
            },
            None => {},
        }
        proof {
            assert(gl.take(i as int + 1).drop_last() =~= gl.take(i as int));
            assert(gl.take(i as int + 1).last() == gl[i as int]);
        }
        i += 1;
    }
    proof {
        assert(gl.take(ms@.len() as int) =~= gl);
    }
    r
}

/// The full names of the evidence, in order.
fn full_names_of(rs: &Vec<Repo>) -> (r: Vec<String>)
    ensures
        r.deep_view() == repo_names(rs.deep_view()),
{
    let ghost gl = rs.deep_view();
    let mut r: Vec<String> = Vec::new();
    let mut i: usize = 0;
    while i < rs.len()
        invariant
            i <= rs.len(),
            gl == rs.deep_view(),
            gl.len() == rs@.len(),
            r.deep_view() == repo_names(gl.take(i as int)),
        decreases rs@.len() - i,
    {
        let ghost pre = r.deep_view();
        match &rs[i].full_name {
            Some(n) => {
                r.push(n.clone());
                proof {
                    assert(r.deep_view() =~= pre.push(gl[i as int].full_name->Some_0));
                }
            },
            None => {},
        }
        proof {
            assert(gl.take(i as int + 1).drop_last() =~= gl.take(i as int));
            assert(gl.take(i as int + 1).last() == gl[i as int]);
        }
        i += 1;
    }
    proof {
        assert(gl.take(rs@.len() as int) =~= gl);
    }
    r
}

/// The parts joined with a single space between each two.
fn join_names(parts: &Vec<String>) -> (r: String)
    ensures
        r@ == join_spaced(parts.deep_view()),
{
    let ghost gl = parts.deep_view();
    let mut r = String::new();
    let mut i: usize = 0;
    while i < parts.len()
        invariant
            i <= parts.len(),
            gl == parts.deep_view(),
            gl.len() == parts@.len(),
            r@ == join_spaced(gl.take(i as int)),
        decreases parts@.len() - i,
    {
        if i > 0 {
            r.append(" ");
        }
        r.append(parts[i].as_str());
        proof {
            assert(gl.take(i as int + 1).drop_last() =~= gl.take(i as int));
            assert(gl.take(i as int + 1).last() == gl[i as int]);
            if i == 0 {
                assert(r@ =~= gl.take(1)[0]);
            }
        }
        i += 1;
    }
    proof {
        assert(gl.take(parts@.len() as int) =~= gl);
    }
    r
}

impl AuditError {
    /// The observation half of this failure's message: what was seen,
    /// naming the evidence.
    pub fn observation(&self) -> (r: String)
        ensures
            r@ == spec_observation(self@),
    {
        match self {
            AuditError::AdminsHaveCommits(ms) => {
                let names = logins_of(ms);
                let joined = join_names(&names);
                let mut r: String = "Admins (".to_owned();
                r.append(joined.as_str());
                r.append(
                    ") have push activity. This is usually an indication that admin members are using their accounts for purposes other than administration.",
                );
                r
            },
            AuditError::Disabled2Fa => "2 Factor Authentication is not required for members of the organisation.".to_owned(),
            AuditError::NoAuditsRan => "No audits were performed.".to_owned(),
            AuditError::UnProtectedMasterBranches(rs) => {
                let names = full_names_of(rs);
                let joined = join_names(&names);
                let mut r: String = "Repositories (".to_owned();
                r.append(joined.as_str());
                r.append(
                    ") have unprotected master branches. This could lead to accidental data loss.",
                );
                r
            },
        }
    }

    /// The recommendation half of this failure's message: what to do
    /// about it.
    pub fn recommendation(&self) -> (r: String)
        ensures
            r@ == spec_recommendation(self@),
    {
        match self {
            AuditError::AdminsHaveCommits(_) => "Create separate accounts for administration access to the organisation.".to_owned(),
            AuditError::Disabled2Fa => "Enable 2 Factor as a requirement for members.".to_owned(),
            AuditError::NoAuditsRan => "Adjust your configuration to enable some of audit procedures.".to_owned(),
            AuditError::UnProtectedMasterBranches(_) => "Protect master branches and require all commits are made through PRs.".to_owned(),
        }
    }

    /// This failure's full two-part message: the observation, then the
    /// recommendation.
    pub fn message(&self) -> (r: String)
        ensures
            r@ == spec_message(self@),
    {
        let obs = self.observation();
        let rec = self.recommendation();
        let mut r: String = "Warning:\n".to_owned();
        r.append(obs.as_str());
        r.append("\n\nRecommendation:\n");
        r.append(rec.as_str());
        r.append("\n");
        r
    }
}

impl Error {
    /// This error's rendering: audit failures render their two-part
    /// message, the other kinds a fixed description.
    pub fn message(&self) -> (r: String)
        ensures
            r@ == spec_error_message(self@),
    {
        match self {
            Error::NoAuthKey => "No authentication key for GitHub provided.".to_owned(),
            Error::Http { message } => {
                let mut r: String = "Error from HTTP client: ".to_owned();
                r.append(message.as_str());
                r
            },
            Error::Audit { kind } => kind.message(),
            Error::MissingGitHubData => "Unexpected key missing from GitHub data.".to_owned(),
        }
    }
}

} // verus!
