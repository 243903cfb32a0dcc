use vstd::prelude::*;

use crate::config::{Config, ConfigView};
use crate::data::{
    AdminActivity, AdminActivityView, Member, MemberView, Organisation, OrganisationView, Repo,
    RepoBranchStatus, RepoBranchStatusView, RepoView,
};
use crate::error::{AuditError, AuditErrorView, Error, ErrorView};

verus! {

/// Whether the configuration enables at least one check.
pub open spec fn any_check_enabled(c: ConfigView) -> bool {
    c.enforces_2fa || c.admins_have_no_commit_activity || c.all_repos_master_is_protected
}

/// What the two-factor check reports: nothing when it is disabled or the
/// organisation requires two-factor authentication; `Disabled2Fa` when the
/// requirement is off; and `MissingGitHubData` when the snapshot lacks the
/// flag — a required field absent from a response is the missing-data
/// failure, never a silent default.
pub open spec fn two_fa_failure(c: ConfigView, org: OrganisationView) -> Option<ErrorView> {
    if !c.enforces_2fa {
        None
    } else {
        match org.two_factor_requirement_enabled {
            Some(true) => None,
            Some(false) => Some(ErrorView::Audit { kind: AuditErrorView::Disabled2Fa }),
            None => Some(ErrorView::MissingGitHubData),
        }
    }
}

/// The members with push activity, in listing order.
pub open spec fn pushing_admins(list: Seq<AdminActivityView>) -> Seq<MemberView>
    decreases list.len(),
{
    if list.len() == 0 {
        Seq::empty()
    } else {
        let rest = pushing_admins(list.drop_last());
        if list.last().has_pushed {
            rest.push(list.last().member)
        } else {
            rest
        }
    }
}

/// What the admin-activity check reports: nothing when it is disabled; the
/// error that interrupted the fetch, if one did; `AdminsHaveCommits` with
/// the pushing admins as evidence when there are any; and nothing otherwise.
pub open spec fn admin_activity_failure(
    c: ConfigView,
    fetch: Result<Seq<AdminActivityView>, ErrorView>,
) -> Option<ErrorView> {
    if !c.admins_have_no_commit_activity {
        None
    } else {
        match fetch {
            Err(e) => Some(e),
            Ok(list) => if pushing_admins(list).len() == 0 {
                None
            } else {
                Some(
                    ErrorView::Audit {
                        kind: AuditErrorView::AdminsHaveCommits(pushing_admins(list)),
                    },
                )
            },
        }
    }
}

/// Whether a repository counts as unprotected: it does unless its master
/// branch was found in the listing and explicitly marked protected —
/// "absent from the listing" is ambiguous and conservatively counts as
/// unprotected.
pub open spec fn branch_unprotected(s: RepoBranchStatusView) -> bool {
    !(s.master_branch matches Some(b) && b.protected == Some(true))
}

/// The repositories counting as unprotected, in listing order.
pub open spec fn unprotected_repos(list: Seq<RepoBranchStatusView>) -> Seq<RepoView>
    decreases list.len(),
{
    if list.len() == 0 {
        Seq::empty()
    } else {
        let rest = unprotected_repos(list.drop_last());
        if branch_unprotected(list.last()) {
            rest.push(list.last().repo)
        } else {
            rest
        }
    }
}

/// What the branch-protection check reports, in the same shape as
/// [`admin_activity_failure`].
pub open spec fn branch_protection_failure(
    c: ConfigView,
    fetch: Result<Seq<RepoBranchStatusView>, ErrorView>,
) -> Option<ErrorView> {
    if !c.all_repos_master_is_protected {
        None
    } else {
        match fetch {
            Err(e) => Some(e),
            Ok(list) => if unprotected_repos(list).len() == 0 {
                None
            } else {
                Some(
                    ErrorView::Audit {
                        kind: AuditErrorView::UnProtectedMasterBranches(unprotected_repos(list)),
                    },
                )
            },
        }
    }
}

/// A check's report as a (possibly empty) run of failures.
pub open spec fn failure_seq(f: Option<ErrorView>) -> Seq<ErrorView> {
    match f {
        Some(e) => seq![e],
        None => Seq::empty(),
    }
}

/// The full report of one audit run: each enabled check's failure in the
/// fixed check order (two-factor, admin activity, branch protection), and a
/// synthesized `NoAuditsRan` failure when the configuration disabled every
/// check. The run is successful iff the report is empty.
pub open spec fn audit_report(
    c: ConfigView,
    org: OrganisationView,
    admin_fetch: Result<Seq<AdminActivityView>, ErrorView>,
    branch_fetch: Result<Seq<RepoBranchStatusView>, ErrorView>,
) -> Seq<ErrorView> {
    let failures = failure_seq(two_fa_failure(c, org)) + failure_seq(
        admin_activity_failure(c, admin_fetch),
    ) + failure_seq(branch_protection_failure(c, branch_fetch));
    if any_check_enabled(c) {
        failures
    } else {
        failures + seq![ErrorView::Audit { kind: AuditErrorView::NoAuditsRan }]
    }
}

/// A check's outcome as the failure it reports, if any.
pub open spec fn check_result_view(r: Result<(), Error>) -> Option<ErrorView> {
    match r {
        Ok(_) => None,
        Err(e) => Some(e@),
    }
}

/// What the caller fetched for the admin-activity check, as a mathematical
/// value.
pub open spec fn admin_fetch_view(f: Result<Vec<AdminActivity>, Error>) -> Result<
    Seq<AdminActivityView>,
    ErrorView,
> {
    match f {
        Ok(list) => Ok(list.deep_view()),
        Err(e) => Err(e@),
    }
}

/// What the caller fetched for the branch-protection check, as a
/// mathematical value.
pub open spec fn branch_fetch_view(f: Result<Vec<RepoBranchStatus>, Error>) -> Result<
    Seq<RepoBranchStatusView>,
    ErrorView,
> {
    match f {
        Ok(list) => Ok(list.deep_view()),
        Err(e) => Err(e@),
    }
}

/// The auditor of a GitHub organisation: one organisation snapshot, one
/// configuration, and the checks that run over them. The caller fetches the
/// paginated data each enabled check reads (driving [`crate::fetch`]) and
/// hands it in; the auditor decides every outcome.
#[derive(Debug)]
pub struct Auditor {
    /// The current configuration.
    pub config: Config,
    /// The audited organisation's snapshot.
    pub organisation: Organisation,
    /// Whether the auditor ran any audits in the last run.
    pub has_run_audit: bool,
}

impl Auditor {
    /// Whether the auditor has run at least one auditing procedure.
    pub open spec fn spec_has_run(&self) -> bool {
        self.has_run_audit
    }

    /// An auditor that has not run anything yet.
    pub fn new(config: Config, organisation: Organisation) -> (a: Auditor)
        ensures
            a.config == config,
            a.organisation == organisation,
            !a.spec_has_run(),
    {
        Auditor { config, organisation, has_run_audit: false }
    }

    /// The auditor for a fetched organisation snapshot. A failed fetch
    /// constructs no auditor and surfaces the fetch's own error — a
    /// transport failure on the organisation load therefore aborts before
    /// any check can run, and the surfaced error is never an audit failure
    /// (see [`crate::error::Error::is_audit`]).
    pub fn try_new(config: Config, fetched: Result<Organisation, Error>) -> (r: Result<
        Auditor,
        Error,
    >)
        ensures
            match r {
                Ok(a) => {
                    &&& fetched matches Ok(org) && a.organisation == org
                    &&& a.config == config
                    &&& !a.spec_has_run()
                },
                Err(e) => fetched matches Err(e0) && e == e0,
            },
    {
        match fetched {
            Ok(organisation) => Ok(Auditor::new(config, organisation)),
            Err(e) => Err(e),
        }
    }

    /// Whether the `Auditor` has run at least one auditing procedure.
    pub fn has_run(&self) -> (r: bool)
        ensures
            r == self.spec_has_run(),
    {
        self.has_run_audit
    }

    /// Audit that 2fa is enforced for the organisation.
    pub fn audit_2fa(&mut self) -> (r: Result<(), Error>)
        ensures
            final(self).config == old(self).config,
            final(self).organisation == old(self).organisation,
            final(self).spec_has_run() == (old(self).spec_has_run()
                || old(self).config@.enforces_2fa),
            check_result_view(r) == two_fa_failure(old(self).config@, old(self).organisation@),
    {
        if !self.config.enforces_2fa {
            return Ok(());
        }
        self.has_run_audit = true;

        match self.organisation.two_factor_requirement_enabled {
            Some(true) => Ok(()),
            Some(false) => Err(Error::Audit { kind: AuditError::Disabled2Fa }),
            None => Err(Error::MissingGitHubData),
        }
    }

    /// Audit that all admin accounts have no push activity. The caller
    /// enumerates the organisation's admins and scans each one's activity
    /// feed (or reports the error that stopped it from doing so); this
    /// decides the outcome: the admins with push activity are the evidence,
    /// and any fetch error is this check's failure alone.
    pub fn audit_admin_commit_activity(&mut self, fetch: Result<Vec<AdminActivity>, Error>) -> (r:
        Result<(), Error>)
        ensures
            final(self).config == old(self).config,
            final(self).organisation == old(self).organisation,
            final(self).spec_has_run() == (old(self).spec_has_run()
                || old(self).config@.admins_have_no_commit_activity),
            check_result_view(r) == admin_activity_failure(
                old(self).config@,
                admin_fetch_view(fetch),
            ),
    {
        if !self.config.admins_have_no_commit_activity {
            return Ok(());
        }
        self.has_run_audit = true;

        let list = match fetch {
            Ok(list) => list,
            Err(e) => {
                return Err(e);
            },
        };
        let ghost gl = list.deep_view();

        let mut evidence: Vec<Member> = Vec::new();
        let mut i: usize = 0;
        while i < list.len()
            invariant
                i <= list.len(),
                gl == list.deep_view(),
                gl.len() == list@.len(),
                evidence.deep_view() == pushing_admins(gl.take(i as int)),
            decreases list@.len() - i,
        {
            let ghost pre = evidence.deep_view();
            if list[i].has_pushed {
                evidence.push(list[i].member.clone());
                proof {
                    assert(evidence.deep_view() =~= pre.push(gl[i as int].member));
                }
            }
            proof {
                assert(gl.take(i as int + 1).drop_last() =~= gl.take(i as int));
                assert(gl.take(i as int + 1).last() == gl[i as int]);
            }
            i += 1;
        }
        proof {
            assert(gl.take(list@.len() as int) =~= gl);
        }

        if evidence.len() == 0 {
            Ok(())
        } else {
            Err(Error::Audit { kind: AuditError::AdminsHaveCommits(evidence) })
        }
    }

    /// Audit that every repository's master branch is protected. The caller
    /// enumerates the repositories and looks each one's master branch up in
    /// its unprotected-branch listing (or reports the error that stopped
    /// it); this decides the outcome: the repositories counting as
    /// unprotected are the evidence, and any fetch error is this check's
    /// failure alone.
    pub fn audit_all_master_branches_are_protected(
        &mut self,
        fetch: Result<Vec<RepoBranchStatus>, Error>,
    ) -> (r: Result<(), Error>)
        ensures
            final(self).config == old(self).config,
            final(self).organisation == old(self).organisation,
            final(self).spec_has_run() == (old(self).spec_has_run()
                || old(self).config@.all_repos_master_is_protected),
            check_result_view(r) == branch_protection_failure(
                old(self).config@,
                branch_fetch_view(fetch),
            ),
    {
        if !self.config.all_repos_master_is_protected {
            return Ok(());
        }
        self.has_run_audit = true;

        let list = match fetch {
            Ok(list) => list,
            Err(e) => {
                return Err(e);
            },
        };
        let ghost gl = list.deep_view();

        let mut evidence: Vec<Repo> = Vec::new();
        let mut i: usize = 0;
        while i < list.len()
            invariant
                i <= list.len(),
                gl == list.deep_view(),
                gl.len() == list@.len(),
                evidence.deep_view() == unprotected_repos(gl.take(i as int)),
            decreases list@.len() - i,
        {
            let ghost pre = evidence.deep_view();
            let found_protected = match &list[i].master_branch {
                Some(b) => match b.protected {
                    Some(p) => p,
                    None => false,
                },
                None => false,
            };
            if !found_protected {
                evidence.push(list[i].repo.clone());
                proof {
                    assert(evidence.deep_view() =~= pre.push(gl[i as int].repo));
                }
            }
            proof {
                assert(gl.take(i as int + 1).drop_last() =~= gl.take(i as int));
                assert(gl.take(i as int + 1).last() == gl[i as int]);
            }
            i += 1;
        }
        proof {
            assert(gl.take(list@.len() as int) =~= gl);
        }

        if evidence.len() == 0 {
            Ok(())
        } else {
            Err(Error::Audit { kind: AuditError::UnProtectedMasterBranches(evidence) })
        }
    }

    /// Perform the audit: run each enabled check in the fixed order
    /// (two-factor, admin activity, branch protection), collecting every
    /// failure — one check's failure never hides another's — and append a
    /// `NoAuditsRan` failure when the configuration disabled every check.
    ///
    /// # Errors
    /// The full ordered report, if any check failed.
    pub fn audit(
        &mut self,
        admin_fetch: Result<Vec<AdminActivity>, Error>,
        branch_fetch: Result<Vec<RepoBranchStatus>, Error>,
    ) -> (r: Result<(), Vec<Error>>)
        ensures
            final(self).config == old(self).config,
            final(self).organisation == old(self).organisation,
            final(self).spec_has_run() == any_check_enabled(old(self).config@),
            ({
                let report = audit_report(
                    old(self).config@,
                    old(self).organisation@,
                    admin_fetch_view(admin_fetch),
                    branch_fetch_view(branch_fetch),
                );
                match r {
                    Ok(_) => report.len() == 0,
                    Err(errs) => errs.deep_view() == report && report.len() > 0,
                }
            }),
    {
        let ghost c0 = self.config@;
        let ghost org0 = self.organisation@;
        let ghost f1 = two_fa_failure(c0, org0);
        let ghost f2 = admin_activity_failure(c0, admin_fetch_view(admin_fetch));
        let ghost f3 = branch_protection_failure(c0, branch_fetch_view(branch_fetch));

        self.has_run_audit = false;
        let mut errors: Vec<Error> = Vec::new();

        let r1 = self.audit_2fa();
        if let Err(e) = r1 {
            errors.push(e);
        }
        proof {
            assert(errors.deep_view() =~= failure_seq(f1));
        }

        let r2 = self.audit_admin_commit_activity(admin_fetch);
        if let Err(e) = r2 {
            errors.push(e);
        }
        proof {
            assert(errors.deep_view() =~= failure_seq(f1) + failure_seq(f2));
        }

        let r3 = self.audit_all_master_branches_are_protected(branch_fetch);
        if let Err(e) = r3 {
            errors.push(e);
        }
        proof {
            assert(errors.deep_view() =~= failure_seq(f1) + failure_seq(f2) + failure_seq(f3));
        }

        if !self.has_run_audit {
            errors.push(Error::Audit { kind: AuditError::NoAuditsRan });
            proof {
                assert(errors.deep_view() =~= failure_seq(f1) + failure_seq(f2) + failure_seq(f3)
                    + seq![ErrorView::Audit { kind: AuditErrorView::NoAuditsRan }]);
            }
        }

        if errors.len() == 0 {
            Ok(())
        } else {
            Err(errors)
        }
    }
}

/// Law: an admin list without push activity leaves no evidence.
pub proof fn lemma_no_pushers_no_evidence(list: Seq<AdminActivityView>)
    requires
        forall|i: int| 0 <= i < list.len() ==> !list[i].has_pushed,
    ensures
        pushing_admins(list).len() == 0,
    decreases list.len(),
{
    if list.len() > 0 {
        lemma_no_pushers_no_evidence(list.drop_last());
    }
}

/// Law: a repository list whose master branches are all found protected
/// leaves no evidence.
pub proof fn lemma_all_protected_no_evidence(list: Seq<RepoBranchStatusView>)
    requires
        forall|i: int| 0 <= i < list.len() ==> !branch_unprotected(list[i]),
    ensures
        unprotected_repos(list).len() == 0,
    decreases list.len(),
{
    if list.len() > 0 {
        lemma_all_protected_no_evidence(list.drop_last());
    }
}

/// Law: with every toggle disabled, the report holds exactly one
/// `NoAuditsRan` failure and no other entry, whatever was fetched.
pub proof fn lemma_all_disabled_exactly_no_audits_ran(
    c: ConfigView,
    org: OrganisationView,
    admin_fetch: Result<Seq<AdminActivityView>, ErrorView>,
    branch_fetch: Result<Seq<RepoBranchStatusView>, ErrorView>,
)
    requires
        !c.enforces_2fa,
        !c.admins_have_no_commit_activity,
        !c.all_repos_master_is_protected,
    ensures
        audit_report(c, org, admin_fetch, branch_fetch) =~= seq![
            ErrorView::Audit { kind: AuditErrorView::NoAuditsRan },
        ],
{
}

/// Law: a fully compliant organisation — two-factor required, no admin
/// with push activity, every master branch found protected — audited with
/// at least one check enabled, yields an empty report.
pub proof fn lemma_compliant_empty_report(
    c: ConfigView,
    org: OrganisationView,
    admins: Seq<AdminActivityView>,
    repos: Seq<RepoBranchStatusView>,
)
    requires
        any_check_enabled(c),
        org.two_factor_requirement_enabled == Some(true),
        forall|i: int| 0 <= i < admins.len() ==> !admins[i].has_pushed,
        forall|i: int| 0 <= i < repos.len() ==> !branch_unprotected(repos[i]),
    ensures
        audit_report(c, org, Ok(admins), Ok(repos)).len() == 0,
{
    lemma_no_pushers_no_evidence(admins);
    lemma_all_protected_no_evidence(repos);
}

/// Law: with the two-factor check enabled and the requirement switched
/// off, the report leads with the `Disabled2Fa` failure.
pub proof fn lemma_disabled_2fa_reported(
    c: ConfigView,
    org: OrganisationView,
    admin_fetch: Result<Seq<AdminActivityView>, ErrorView>,
    branch_fetch: Result<Seq<RepoBranchStatusView>, ErrorView>,
)
    requires
        c.enforces_2fa,
        org.two_factor_requirement_enabled == Some(false),
    ensures
        audit_report(c, org, admin_fetch, branch_fetch).len() > 0,
        audit_report(c, org, admin_fetch, branch_fetch)[0] == (ErrorView::Audit {
            kind: AuditErrorView::Disabled2Fa,
        }),
{
}

/// Law: the admin-activity evidence holds exactly the members that have
/// push activity — every pushing admin's record and nobody else's.
pub proof fn lemma_pushing_admins_exact(list: Seq<AdminActivityView>)
    ensures
        forall|m: MemberView|
            #[trigger] pushing_admins(list).contains(m) <==> exists|i: int|
                0 <= i < list.len() && list[i].has_pushed && list[i].member == m,
    decreases list.len(),
{
    if list.len() > 0 {
        lemma_pushing_admins_exact(list.drop_last());
        let rest = pushing_admins(list.drop_last());
        let whole = pushing_admins(list);
        assert forall|m: MemberView| #[trigger] whole.contains(m) implies exists|i: int|
            0 <= i < list.len() && list[i].has_pushed && list[i].member == m by {
            if list.last().has_pushed && m == list.last().member {
                assert(list[list.len() - 1].has_pushed && list[list.len() - 1].member == m);
            } else {
                assert(rest.contains(m));
                let i = choose|i: int|
                    0 <= i < list.drop_last().len() && list.drop_last()[i].has_pushed
                        && list.drop_last()[i].member == m;
                assert(list[i].has_pushed && list[i].member == m);
            }
        }
        assert forall|m: MemberView|
            exists|i: int|
                0 <= i < list.len() && list[i].has_pushed && list[i].member
                    == m implies #[trigger] whole.contains(m) by {
            let i = choose|i: int|
                0 <= i < list.len() && list[i].has_pushed && list[i].member == m;
            if i == list.len() - 1 {
                assert(whole.last() == m);
                assert(whole.contains(m));
            } else {
                assert(list.drop_last()[i].has_pushed && list.drop_last()[i].member == m);
                assert(rest.contains(m));
                let j = choose|j: int| 0 <= j < rest.len() && rest[j] == m;
                assert(whole[j] == m);
                assert(whole.contains(m));
            }
        }
    }
}

} // verus!
