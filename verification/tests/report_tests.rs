use gh_auditor::urls::{
    member_events_url, members_query_url, organisation_repos_url, repo_branches_query_url,
};
use gh_auditor::{AuditError, Error, Member, Organisation, Repo};

fn named_member(login: Option<&str>) -> Member {
    Member { login: login.map(str::to_string), events_url: None }
}

fn named_repo(full_name: Option<&str>) -> Repo {
    Repo { full_name: full_name.map(str::to_string), branches_url: None, default_branch: None }
}

#[test]
fn disabled_2fa_message_is_exact() {
    let message = AuditError::Disabled2Fa.message();
    assert_eq!(
        message,
        "Warning:\n2 Factor Authentication is not required for members of the organisation.\n\n\
         Recommendation:\nEnable 2 Factor as a requirement for members.\n"
    );
}

#[test]
fn no_audits_ran_message_recommends_configuration() {
    let message = AuditError::NoAuditsRan.message();
    assert_eq!(
        AuditError::NoAuditsRan.observation(),
        "No audits were performed."
    );
    assert!(message.contains("Adjust your configuration"));
}

#[test]
fn admin_observation_joins_logins_with_spaces() {
    let failure = AuditError::AdminsHaveCommits(vec![
        named_member(Some("alice")),
        named_member(Some("bors")),
    ]);
    assert_eq!(
        failure.observation(),
        "Admins (alice bors) have push activity. This is usually an indication that admin \
         members are using their accounts for purposes other than administration."
    );
    assert_eq!(
        failure.recommendation(),
        "Create separate accounts for administration access to the organisation."
    );
}

#[test]
fn admin_observation_skips_missing_logins() {
    let failure = AuditError::AdminsHaveCommits(vec![
        named_member(None),
        named_member(Some("bors")),
    ]);
    assert_eq!(
        failure.observation(),
        "Admins (bors) have push activity. This is usually an indication that admin \
         members are using their accounts for purposes other than administration."
    );
}

#[test]
fn unprotected_branches_observation_joins_repository_names() {
    let failure = AuditError::UnProtectedMasterBranches(vec![
        named_repo(Some("acme/tool")),
        named_repo(Some("acme/site")),
    ]);
    assert_eq!(
        failure.observation(),
        "Repositories (acme/tool acme/site) have unprotected master branches. This could \
         lead to accidental data loss."
    );
    assert!(failure.message().contains("Protect master branches"));
}

#[test]
fn plain_error_messages_are_fixed() {
    assert_eq!(
        Error::NoAuthKey.message(),
        "No authentication key for GitHub provided."
    );
    assert_eq!(
        Error::MissingGitHubData.message(),
        "Unexpected key missing from GitHub data."
    );
    assert_eq!(
        Error::Http { message: "connection reset".to_string() }.message(),
        "Error from HTTP client: connection reset"
    );
}

#[test]
fn audit_error_renders_through_error_message() {
    let error = Error::Audit { kind: AuditError::Disabled2Fa };
    assert_eq!(error.message(), AuditError::Disabled2Fa.message());
}

#[test]
fn members_query_url_replaces_the_member_slot() {
    let org = Organisation {
        two_factor_requirement_enabled: None,
        members_url: Some("https://api.github.com/orgs/acme/members{/member}".to_string()),
        repos_url: None,
    };
    assert_eq!(
        members_query_url(&org).unwrap(),
        "https://api.github.com/orgs/acme/members?role=admin"
    );
}

#[test]
fn members_query_url_without_template_is_missing_data() {
    let org = Organisation {
        two_factor_requirement_enabled: None,
        members_url: None,
        repos_url: None,
    };
    assert_eq!(members_query_url(&org).unwrap_err(), Error::MissingGitHubData);
}

#[test]
fn member_events_url_strips_the_privacy_slot() {
    let member = Member {
        login: Some("alice".to_string()),
        events_url: Some("https://api.github.com/users/alice/events{/privacy}".to_string()),
    };
    assert_eq!(
        member_events_url(&member).unwrap(),
        "https://api.github.com/users/alice/events"
    );
}

#[test]
fn member_without_events_url_is_missing_data() {
    let member = named_member(Some("alice"));
    assert_eq!(member_events_url(&member).unwrap_err(), Error::MissingGitHubData);
}

#[test]
fn repos_url_is_taken_as_it_stands() {
    let org = Organisation {
        two_factor_requirement_enabled: None,
        members_url: None,
        repos_url: Some("https://api.github.com/orgs/acme/repos".to_string()),
    };
    assert_eq!(
        organisation_repos_url(&org).unwrap(),
        "https://api.github.com/orgs/acme/repos"
    );
    let bare = Organisation {
        two_factor_requirement_enabled: None,
        members_url: None,
        repos_url: None,
    };
    assert_eq!(organisation_repos_url(&bare).unwrap_err(), Error::MissingGitHubData);
}

#[test]
fn branches_query_url_adds_the_unprotected_filter() {
    let repo = Repo {
        full_name: Some("acme/tool".to_string()),
        branches_url: Some("https://api.github.com/repos/acme/tool/branches{/branch}".to_string()),
        default_branch: Some("master".to_string()),
    };
    assert_eq!(
        repo_branches_query_url(&repo).unwrap(),
        "https://api.github.com/repos/acme/tool/branches?protected=false"
    );
    assert_eq!(
        repo_branches_query_url(&named_repo(Some("acme/tool"))).unwrap_err(),
        Error::MissingGitHubData
    );
}
