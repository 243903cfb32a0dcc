use vstd::prelude::*;

verus! {

/// Immutable snapshot of one organisation's API-exposed attributes: the
/// feature flags and list-resource URL templates that the checks read.
/// A field is `None` when the upstream response did not carry it; whether
/// that is an error is decided by each check, not here.
#[derive(Debug, PartialEq)]
pub struct Organisation {
    /// Whether the organisation requires two-factor authentication.
    pub two_factor_requirement_enabled: Option<bool>,
    /// URL template for the organisation's member listing.
    pub members_url: Option<String>,
    /// URL of the organisation's repository listing.
    pub repos_url: Option<String>,
}

/// The mathematical value of an [`Organisation`].
pub struct OrganisationView {
    pub two_factor_requirement_enabled: Option<bool>,
    pub members_url: Option<Seq<char>>,
    pub repos_url: Option<Seq<char>>,
}

impl View for Organisation {
    type V = OrganisationView;

    open spec fn view(&self) -> OrganisationView {
        OrganisationView {
            two_factor_requirement_enabled: self.two_factor_requirement_enabled,
            members_url: self.members_url.deep_view(),
            repos_url: self.repos_url.deep_view(),
        }
    }
}

/// One member of the organisation, as the member listing returns it.
#[derive(Debug, PartialEq)]
pub struct Member {
    /// The member's account name; evidence in the admin-activity report.
    pub login: Option<String>,
    /// URL template for the member's public activity feed.
    pub events_url: Option<String>,
}

/// The mathematical value of a [`Member`].
pub struct MemberView {
    pub login: Option<Seq<char>>,
    pub events_url: Option<Seq<char>>,
}

impl View for Member {
    type V = MemberView;

    open spec fn view(&self) -> MemberView {
        MemberView { login: self.login.deep_view(), events_url: self.events_url.deep_view() }
    }
}

impl DeepView for Member {
    type V = MemberView;

    open spec fn deep_view(&self) -> MemberView {
        self.view()
    }
}

impl Clone for Member {
    fn clone(&self) -> (r: Member)
        ensures
            r == *self,
    {
        Member { login: clone_opt_string(&self.login), events_url: clone_opt_string(&self.events_url) }
    }
}

/// One repository of the organisation, as the repository listing returns it.
#[derive(Debug, PartialEq)]
pub struct Repo {
    /// The repository's full name; evidence in the branch-protection report.
    pub full_name: Option<String>,
    /// URL template for the repository's branch listing.
    pub branches_url: Option<String>,
    /// The repository's primary branch name, where the listing carried one.
    pub default_branch: Option<String>,
}

/// The mathematical value of a [`Repo`].
pub struct RepoView {
    pub full_name: Option<Seq<char>>,
    pub branches_url: Option<Seq<char>>,
    pub default_branch: Option<Seq<char>>,
}

impl View for Repo {
    type V = RepoView;

    open spec fn view(&self) -> RepoView {
        RepoView {
            full_name: self.full_name.deep_view(),
            branches_url: self.branches_url.deep_view(),
            default_branch: self.default_branch.deep_view(),
        }
    }
}

impl DeepView for Repo {
    type V = RepoView;

    open spec fn deep_view(&self) -> RepoView {
        self.view()
    }
}

impl Clone for Repo {
    fn clone(&self) -> (r: Repo)
        ensures
            r == *self,
    {
        Repo {
            full_name: clone_opt_string(&self.full_name),
            branches_url: clone_opt_string(&self.branches_url),
            default_branch: clone_opt_string(&self.default_branch),
        }
    }
}

/// One branch of a repository, as the branch listing returns it.
#[derive(Debug, PartialEq)]
pub struct Branch {
    /// The branch's name.
    pub name: Option<String>,
    /// Whether the branch is protected, where the listing says so.
    pub protected: Option<bool>,
}

/// The mathematical value of a [`Branch`].
pub struct BranchView {
    pub name: Option<Seq<char>>,
    pub protected: Option<bool>,
}

impl View for Branch {
    type V = BranchView;

    open spec fn view(&self) -> BranchView {
        BranchView { name: self.name.deep_view(), protected: self.protected }
    }
}

impl DeepView for Branch {
    type V = BranchView;

    open spec fn deep_view(&self) -> BranchView {
        self.view()
    }
}

impl Clone for Branch {
    fn clone(&self) -> (r: Branch)
        ensures
            r == *self,
    {
        Branch { name: clone_opt_string(&self.name), protected: self.protected }
    }
}

/// One event from a member's public activity feed.
#[derive(Debug, PartialEq)]
pub struct Event {
    /// The event's type tag, e.g. `PushEvent`.
    pub kind: Option<String>,
}

/// The mathematical value of an [`Event`].
pub struct EventView {
    pub kind: Option<Seq<char>>,
}

impl View for Event {
    type V = EventView;

    open spec fn view(&self) -> EventView {
        EventView { kind: self.kind.deep_view() }
    }
}

impl DeepView for Event {
    type V = EventView;

    open spec fn deep_view(&self) -> EventView {
        self.view()
    }
}

impl Clone for Event {
    fn clone(&self) -> (r: Event)
        ensures
            r == *self,
    {
        Event { kind: clone_opt_string(&self.kind) }
    }
}

/// What the paginated fetch found for one admin: the member record and
/// whether any event of their activity feed is a push.
#[derive(Debug, PartialEq)]
pub struct AdminActivity {
    /// The admin's member record.
    pub member: Member,
    /// Whether a push event was found in the admin's activity feed.
    pub has_pushed: bool,
}

/// The mathematical value of an [`AdminActivity`].
pub struct AdminActivityView {
    pub member: MemberView,
    pub has_pushed: bool,
}

impl View for AdminActivity {
    type V = AdminActivityView;

    open spec fn view(&self) -> AdminActivityView {
        AdminActivityView { member: self.member@, has_pushed: self.has_pushed }
    }
}

impl DeepView for AdminActivity {
    type V = AdminActivityView;

    open spec fn deep_view(&self) -> AdminActivityView {
        self.view()
    }
}

impl Clone for AdminActivity {
    fn clone(&self) -> (r: AdminActivity)
        ensures
            r == *self,
    {
        AdminActivity { member: self.member.clone(), has_pushed: self.has_pushed }
    }
}

/// What the paginated fetch found for one repository: the repository
/// record and, if present in the unprotected-branch listing, its master
/// branch entry.
#[derive(Debug, PartialEq)]
pub struct RepoBranchStatus {
    /// The repository record.
    pub repo: Repo,
    /// The master branch's entry in the repository's unprotected-branch
    /// listing, if one was found.
    pub master_branch: Option<Branch>,
}

/// The mathematical value of a [`RepoBranchStatus`].
pub struct RepoBranchStatusView {
    pub repo: RepoView,
    pub master_branch: Option<BranchView>,
}

impl View for RepoBranchStatus {
    type V = RepoBranchStatusView;

    open spec fn view(&self) -> RepoBranchStatusView {
        RepoBranchStatusView { repo: self.repo@, master_branch: self.master_branch.deep_view() }
    }
}

impl DeepView for RepoBranchStatus {
    type V = RepoBranchStatusView;

    open spec fn deep_view(&self) -> RepoBranchStatusView {
        self.view()
    }
}

impl Clone for RepoBranchStatus {
    fn clone(&self) -> (r: RepoBranchStatus)
        ensures
            r == *self,
    {
        let master_branch = match &self.master_branch {
            Some(b) => Some(b.clone()),
            None => None,
        };
        RepoBranchStatus { repo: self.repo.clone(), master_branch }
    }
}

/// Clones an optional string, keeping its value.
fn clone_opt_string(s: &Option<String>) -> (r: Option<String>)
    ensures
        r == *s,
{
    match s {
        Some(v) => Some(v.clone()),
        None => None,
    }
}

} // verus!
