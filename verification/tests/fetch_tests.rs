use gh_auditor::fetch::{classify_list_body, collect_page, find_branch, find_push_event};
use gh_auditor::links::next_page_cursor;
use gh_auditor::urls::{member_events_url, members_query_url, primary_branch_name};
use gh_auditor::{
    AdminActivity, AuditError, Auditor, Branch, Config, Error, Event, Member, Organisation, Page,
    Repo,
};

fn member(login: &str) -> Member {
    Member { login: Some(login.to_string()), events_url: None }
}

fn member_page(logins: &[&str], next: Option<&str>) -> Page<Member> {
    Page {
        items: logins.iter().map(|l| member(l)).collect(),
        next: next.map(str::to_string),
    }
}

fn event_page(kinds: &[&str], next: Option<&str>) -> Page<Event> {
    Page {
        items: kinds.iter().map(|k| Event { kind: Some(k.to_string()) }).collect(),
        next: next.map(str::to_string),
    }
}

/// Serves the page stored under the requested URL, counting requests.
fn serve<T>(pages: &mut Vec<(String, Option<Page<T>>)>, url: &str, fetched: &mut usize) -> Page<T> {
    *fetched += 1;
    for (stored_url, page) in pages.iter_mut() {
        if stored_url == url {
            return page.take().expect("page requested twice");
        }
    }
    panic!("no page stored under {}", url);
}

#[test]
fn collect_walks_three_pages_in_order() {
    let mut pages = vec![
        ("p1".to_string(), Some(member_page(&["a", "b"], Some("p2")))),
        ("p2".to_string(), Some(member_page(&["c", "d"], Some("p3")))),
        ("p3".to_string(), Some(member_page(&["e"], None))),
    ];
    let mut fetched = 0usize;
    let mut acc: Vec<Member> = Vec::new();
    let mut cursor = Some("p1".to_string());
    while let Some(url) = cursor {
        let page = serve(&mut pages, &url, &mut fetched);
        cursor = collect_page(&mut acc, page);
    }
    assert_eq!(fetched, 3);
    assert_eq!(
        acc,
        vec![member("a"), member("b"), member("c"), member("d"), member("e")]
    );
}

#[test]
fn find_first_match_on_page_two_never_fetches_page_three() {
    let mut pages = vec![
        ("e1".to_string(), Some(event_page(&["WatchEvent", "ForkEvent"], Some("e2")))),
        ("e2".to_string(), Some(event_page(&["IssuesEvent", "PushEvent"], Some("e3")))),
        ("e3".to_string(), Some(event_page(&["PublicEvent"], None))),
    ];
    let mut fetched = 0usize;
    let mut found = false;
    let mut cursor = Some("e1".to_string());
    while let Some(url) = cursor {
        let page = serve(&mut pages, &url, &mut fetched);
        let (hit, next) = find_push_event(page);
        found = hit;
        cursor = next;
    }
    assert!(found);
    assert_eq!(fetched, 2);
    assert!(pages[2].1.is_some(), "page three must not be fetched");
}

#[test]
fn find_without_match_walks_every_page() {
    let mut pages = vec![
        ("e1".to_string(), Some(event_page(&["WatchEvent"], Some("e2")))),
        ("e2".to_string(), Some(event_page(&["ForkEvent"], None))),
    ];
    let mut fetched = 0usize;
    let mut found = false;
    let mut cursor = Some("e1".to_string());
    while let Some(url) = cursor {
        let page = serve(&mut pages, &url, &mut fetched);
        let (hit, next) = find_push_event(page);
        found = hit;
        cursor = next;
    }
    assert!(!found);
    assert_eq!(fetched, 2);
}

#[test]
fn event_without_type_is_not_a_push() {
    let page = Page { items: vec![Event { kind: None }], next: None };
    let (hit, next) = find_push_event(page);
    assert!(!hit);
    assert!(next.is_none());
}

#[test]
fn find_branch_returns_the_named_branch_and_stops() {
    let page = Page {
        items: vec![
            Branch { name: Some("dev".to_string()), protected: Some(false) },
            Branch { name: Some("master".to_string()), protected: Some(false) },
        ],
        next: Some("b2".to_string()),
    };
    let (found, next) = find_branch(page, &"master".to_string());
    let branch = found.expect("master is on the page");
    assert_eq!(branch.name.as_deref(), Some("master"));
    assert_eq!(branch.protected, Some(false));
    assert!(next.is_none(), "a match must not ask for another page");
}

#[test]
fn find_branch_without_match_passes_the_cursor_on() {
    let page = Page {
        items: vec![Branch { name: Some("dev".to_string()), protected: None }],
        next: Some("b2".to_string()),
    };
    let (found, next) = find_branch(page, &"master".to_string());
    assert!(found.is_none());
    assert_eq!(next.as_deref(), Some("b2"));
}

#[test]
fn next_cursor_reads_the_next_relation() {
    let header = "<https://api.github.com/organizations/1/repos?page=2>; rel=\"next\", \
                  <https://api.github.com/organizations/1/repos?page=3>; rel=\"last\"";
    let cursor = next_page_cursor(Some(header));
    assert_eq!(
        cursor.as_deref(),
        Some("https://api.github.com/organizations/1/repos?page=2")
    );
}

#[test]
fn next_cursor_without_next_relation_is_none() {
    let header = "<https://api.github.com/organizations/1/repos?page=1>; rel=\"prev\"";
    assert!(next_page_cursor(Some(header)).is_none());
}

#[test]
fn next_cursor_of_absent_or_malformed_header_is_none() {
    assert!(next_page_cursor(None).is_none());
    assert!(next_page_cursor(Some("not a link header")).is_none());
}

#[test]
fn admin_check_over_a_paginated_mock_service() {
    let organisation = Organisation {
        two_factor_requirement_enabled: Some(true),
        members_url: Some("https://api.test/orgs/acme/members{/member}".to_string()),
        repos_url: None,
    };

    // The member listing spans two pages; alice's push event sits on the
    // second page of her feed, bob's feed holds none.
    let members_url = members_query_url(&organisation).unwrap();
    assert_eq!(members_url, "https://api.test/orgs/acme/members?role=admin");
    let alice = Member {
        login: Some("alice".to_string()),
        events_url: Some("https://api.test/users/alice/events{/privacy}".to_string()),
    };
    let bob = Member {
        login: Some("bob".to_string()),
        events_url: Some("https://api.test/users/bob/events{/privacy}".to_string()),
    };
    let mut member_pages = vec![
        (
            members_url.clone(),
            Some(Page { items: vec![alice], next: Some("m2".to_string()) }),
        ),
        ("m2".to_string(), Some(Page { items: vec![bob], next: None })),
    ];
    let mut event_pages = vec![
        (
            "https://api.test/users/alice/events".to_string(),
            Some(event_page(&["WatchEvent"], Some("a2"))),
        ),
        ("a2".to_string(), Some(event_page(&["PushEvent"], Some("a3")))),
        ("a3".to_string(), Some(event_page(&["ForkEvent"], None))),
        (
            "https://api.test/users/bob/events".to_string(),
            Some(event_page(&["ForkEvent"], None)),
        ),
    ];

    let mut fetched = 0usize;
    let mut members: Vec<Member> = Vec::new();
    let mut cursor = Some(members_url);
    while let Some(url) = cursor {
        let page = serve(&mut member_pages, &url, &mut fetched);
        cursor = collect_page(&mut members, page);
    }
    assert_eq!(fetched, 2);

    let mut activity: Vec<AdminActivity> = Vec::new();
    for member in members {
        let feed = member_events_url(&member).unwrap();
        let mut cursor = Some(feed);
        let mut has_pushed = false;
        while let Some(url) = cursor {
            let page = serve(&mut event_pages, &url, &mut fetched);
            let (hit, next) = find_push_event(page);
            has_pushed = hit;
            cursor = next;
        }
        activity.push(AdminActivity { member, has_pushed });
    }
    // Two member pages, two pages of alice's feed (the match ends the walk
    // before her third page), one page of bob's feed.
    assert_eq!(fetched, 5);

    let mut auditor = Auditor::new(
        Config {
            enforces_2fa: true,
            admins_have_no_commit_activity: true,
            all_repos_master_is_protected: false,
            installed_app_whitelist: None,
            admin_whitelist: None,
            member_whitelist: None,
        },
        organisation,
    );
    let errors = auditor.audit(Ok(activity), Ok(vec![])).unwrap_err();
    assert_eq!(errors.len(), 1);
    match &errors[0] {
        Error::Audit { kind: AuditError::AdminsHaveCommits(evidence) } => {
            assert_eq!(evidence.len(), 1);
            assert_eq!(evidence[0].login.as_deref(), Some("alice"));
        }
        other => panic!("expected admin-activity evidence, got {:?}", other),
    }
}

#[test]
fn non_list_body_is_a_decode_failure_for_either_strategy() {
    let kept = classify_list_body(Some(vec![member("a")])).unwrap();
    assert_eq!(kept, vec![member("a")]);
    let error = classify_list_body::<Member>(None).unwrap_err();
    assert_eq!(error, Error::Http { message: "response body is not a list".to_string() });
    assert!(!error.is_audit());
}

#[test]
fn primary_branch_name_prefers_the_listed_default() {
    let trunk = Repo {
        full_name: Some("acme/tool".to_string()),
        branches_url: None,
        default_branch: Some("trunk".to_string()),
    };
    assert_eq!(primary_branch_name(&trunk), "trunk");
    let bare = Repo { full_name: None, branches_url: None, default_branch: None };
    assert_eq!(primary_branch_name(&bare), "master");
}

#[test]
fn find_branch_returns_the_first_of_equally_named_branches() {
    let page = Page {
        items: vec![
            Branch { name: Some("master".to_string()), protected: Some(true) },
            Branch { name: Some("master".to_string()), protected: Some(false) },
        ],
        next: None,
    };
    let (found, _) = find_branch(page, &"master".to_string());
    assert_eq!(found.unwrap().protected, Some(true));
}
