use vstd::prelude::*;

use crate::data::{Branch, BranchView, Event, EventView};
use crate::error::{Error, ErrorView};

verus! {

/// One decoded page of a paginated listing: its items in server-returned
/// order, and the cursor for the next page, `None` when the sequence is
/// exhausted. The caller performs the page request and decoding, then hands
/// the page to one of the step functions below; they decide what is kept
/// and whether another page is wanted.
pub struct Page<T> {
    /// The page's items, in server-returned order.
    pub items: Vec<T>,
    /// Where the next page is, if the response named one.
    pub next: Option<String>,
}

/// One step of the collect-all strategy: appends the page's items, in
/// order, to the accumulator and returns the cursor to fetch next. Driving
/// this over a page sequence concatenates every page's items in
/// page-then-within-page order.
pub fn collect_page<T>(acc: &mut Vec<T>, page: Page<T>) -> (next: Option<String>)
    ensures
        final(acc)@ == old(acc)@ + page.items@,
        next == page.next,
{
    let Page { items: mut items, next } = page;
    acc.append(&mut items);
    next
}

/// Classifies one page's decoded body, for either fetch strategy: the
/// items where the body was a list, and a decode failure — which aborts
/// the whole fetch — where it was not. The caller hands `None` for a JSON
/// body that is not a list of the expected records.
pub fn classify_list_body<T>(items: Option<Vec<T>>) -> (r: Result<Vec<T>, Error>)
    ensures
        match r {
            Ok(v) => items matches Some(v0) && v == v0,
            Err(e) => items is None && e@ == (ErrorView::Http {
                message: "response body is not a list"@,
            }),
        },
{
    match items {
        Some(v) => Ok(v),
        None => Err(Error::Http { message: "response body is not a list".to_owned() }),
    }
}

/// Whether an event is a push event.
pub open spec fn is_push_event(e: EventView) -> bool {
    e.kind matches Some(k) && k == "PushEvent"@
}

/// One step of the find-first strategy with the predicate "event type is a
/// push": reports whether the page holds a push event and, only when it
/// does not, the cursor to fetch next — a match ends the walk without
/// fetching further pages.
pub fn find_push_event(page: Page<Event>) -> (r: (bool, Option<String>))
    ensures
        r.0 == exists|i: int| 0 <= i < page.items@.len() && is_push_event(page.items@[i]@),
        r.0 ==> r.1 is None,
        !r.0 ==> r.1 == page.next,
{
    let pat: String = "PushEvent".to_owned();
    let mut i: usize = 0;
    while i < page.items.len()
        invariant
            i <= page.items.len(),
            pat@ == "PushEvent"@,
            forall|j: int| 0 <= j < i ==> !is_push_event(page.items@[j]@),
        decreases page.items.len() - i,
    {
        let hit = match &page.items[i].kind {
            Some(k) => *k == pat,
            None => false,
        };
        if hit {
            return (true, None);
        }
        i += 1;
    }
    (false, page.next)
}

/// Whether a branch carries the given name.
pub open spec fn branch_named(b: BranchView, target: Seq<char>) -> bool {
    b.name matches Some(n) && n == target
}

/// One step of the find-first strategy with the predicate "branch name
/// equals `target`": returns the first branch of the page named `target`,
/// or, when none is, the cursor to fetch next — a match ends the walk
/// without fetching further pages.
pub fn find_branch(page: Page<Branch>, target: &String) -> (r: (Option<Branch>, Option<String>))
    ensures
        match r.0 {
            Some(b) => {
                &&& exists|i: int|
                    0 <= i < page.items@.len() && b == page.items@[i] && branch_named(b@, target@)
                        && (forall|j: int| 0 <= j < i ==> !branch_named(page.items@[j]@, target@))
                &&& r.1 is None
            },
            None => {
                &&& forall|i: int|
                    0 <= i < page.items@.len() ==> !branch_named(page.items@[i]@, target@)
                &&& r.1 == page.next
            },
        },
{
    let mut pg = page;
    let ghost all = pg.items@;
    let mut i: usize = 0;
    while i < pg.items.len()
        invariant
            i <= pg.items@.len(),
            pg.items@ == all,
            all == page.items@,
            pg.next == page.next,
            forall|j: int| 0 <= j < i ==> !branch_named(all[j]@, target@),
        decreases pg.items@.len() - i,
    {
        let hit = match &pg.items[i].name {
            Some(n) => *n == *target,
            None => false,
        };
        if hit {
            assert(branch_named(all[i as int]@, target@));
            let b = pg.items.remove(i);
            assert(b == all[i as int]);
            assert(exists|w: int|
                0 <= w < page.items@.len() && b == page.items@[w] && branch_named(b@, target@)
                    && (forall|j: int| 0 <= j < w ==> !branch_named(page.items@[j]@, target@))) by {
                assert(all == page.items@);
                assert(0 <= i < page.items@.len() && b == page.items@[i as int] && branch_named(
                    b@,
                    target@,
                ) && (forall|j: int| 0 <= j < i ==> !branch_named(page.items@[j]@, target@)));
            }
            return (Some(b), None);
        }
        i += 1;
    }
    assert(forall|w: int| 0 <= w < page.items@.len() ==> !branch_named(page.items@[w]@, target@))
        by {
        assert(all == page.items@);
    }
    (None, pg.next)
}

} // verus!
