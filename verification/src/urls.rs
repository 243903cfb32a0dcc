use vstd::prelude::*;

use crate::data::{Member, Organisation, Repo};
use crate::error::{Error, ErrorView};

verus! {

/// `s` with every occurrence of `pat` replaced by `sub`, scanning left to
/// right over non-overlapping matches. An empty pattern leaves `s` as it is.
pub open spec fn replace_all(s: Seq<char>, pat: Seq<char>, sub: Seq<char>) -> Seq<char>
    decreases s.len(),
{
    if pat.len() == 0 || s.len() < pat.len() {
        s
    } else if s.take(pat.len() as int) == pat {
        sub + replace_all(s.skip(pat.len() as int), pat, sub)
    } else {
        s.take(1) + replace_all(s.skip(1), pat, sub)
    }
}

/// Relies on `str::replace` from std: replaces every match of `pat` in `s`
/// with `sub`, scanning left to right over non-overlapping matches.
#[verifier::external_body]
fn replace(s: &str, pat: &str, sub: &str) -> (r: String)
    requires
        pat@.len() > 0,
    ensures
        r@ == replace_all(s@, pat@, sub@),
{
    s.replace(pat, sub)
}

/// The admins-only member listing URL: the organisation's `members_url`
/// template with its `{/member}` slot replaced by the admin-role query.
/// An organisation without a `members_url` cannot be audited for admin
/// activity, so that is the requesting check's `MissingGitHubData`.
pub fn members_query_url(org: &Organisation) -> (r: Result<String, Error>)
    ensures
        match r {
            Ok(u) => org@.members_url matches Some(t) && u@ == replace_all(
                t,
                "{/member}"@,
                "?role=admin"@,
            ),
            Err(e) => org@.members_url is None && e@ == (ErrorView::MissingGitHubData),
        },
{
    proof {
        reveal_strlit("{/member}");
    }
    match &org.members_url {
        Some(template) => Ok(replace(template.as_str(), "{/member}", "?role=admin")),
        None => Err(Error::MissingGitHubData),
    }
}

/// A member's public activity feed URL: the member's `events_url` template
/// with its `{/privacy}` slot removed. A member record without an
/// `events_url` is the requesting check's `MissingGitHubData`.
pub fn member_events_url(member: &Member) -> (r: Result<String, Error>)
    ensures
        match r {
            Ok(u) => member@.events_url matches Some(t) && u@ == replace_all(
                t,
                "{/privacy}"@,
                ""@,
            ),
            Err(e) => member@.events_url is None && e@ == (ErrorView::MissingGitHubData),
        },
{
    proof {
        reveal_strlit("{/privacy}");
    }
    match &member.events_url {
        Some(template) => Ok(replace(template.as_str(), "{/privacy}", "")),
        None => Err(Error::MissingGitHubData),
    }
}

/// The organisation's repository listing URL, taken from `repos_url` as it
/// stands. An organisation without one is the requesting check's
/// `MissingGitHubData`.
pub fn organisation_repos_url(org: &Organisation) -> (r: Result<String, Error>)
    ensures
        match r {
            Ok(u) => org@.repos_url == Some(u@),
            Err(e) => org@.repos_url is None && e@ == (ErrorView::MissingGitHubData),
        },
{
    match &org.repos_url {
        Some(u) => Ok(u.clone()),
        None => Err(Error::MissingGitHubData),
    }
}

/// The name of the repository's primary branch: its `default_branch`
/// where the listing carried one, the conventional `master` otherwise.
pub fn primary_branch_name(repo: &Repo) -> (r: String)
    ensures
        match repo@.default_branch {
            Some(n) => r@ == n,
            None => r@ == "master"@,
        },
{
    match &repo.default_branch {
        Some(n) => n.clone(),
        None => "master".to_owned(),
    }
}

/// A repository's unprotected-branch listing URL: the repository's
/// `branches_url` template with its `{/branch}` slot replaced by the
/// server-side unprotected filter. A repository record without a
/// `branches_url` is the requesting check's `MissingGitHubData`.
pub fn repo_branches_query_url(repo: &Repo) -> (r: Result<String, Error>)
    ensures
        match r {
            Ok(u) => repo@.branches_url matches Some(t) && u@ == replace_all(
                t,
                "{/branch}"@,
                "?protected=false"@,
            ),
            Err(e) => repo@.branches_url is None && e@ == (ErrorView::MissingGitHubData),
        },
{
    proof {
        reveal_strlit("{/branch}");
    }
    match &repo.branches_url {
        Some(template) => Ok(replace(template.as_str(), "{/branch}", "?protected=false")),
        None => Err(Error::MissingGitHubData),
    }
}

} // verus!
