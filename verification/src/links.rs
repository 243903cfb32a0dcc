use vstd::prelude::*;

verus! {

#[verifier::external_type_specification]
#[verifier::external_body]
/// hyperx's parsed `Link` header: a relation-typed collection of links.
pub struct ExLink(hyperx::header::Link);

#[verifier::external_type_specification]
#[verifier::external_body]
/// One `link-value` of a parsed `Link` header.
pub struct ExLinkValue(hyperx::header::LinkValue);

/// What one parsed `link-value` holds, as far as the cursor extraction
/// reads it: whether its relations include `next`, and its target IRI.
pub uninterp spec fn link_value_pair(value: hyperx::header::LinkValue) -> (bool, Seq<char>);

/// What a parsed `Link` header holds: each `link-value`'s pair, in header
/// order.
pub uninterp spec fn link_pairs(link: hyperx::header::Link) -> Seq<(bool, Seq<char>)>;

/// What hyperx's `Link` parser yields on a raw header value: the parsed
/// pairs, or `None` where the header is malformed. The parse depends on
/// the header text alone.
pub uninterp spec fn parsed_pairs(raw: Seq<char>) -> Option<Seq<(bool, Seq<char>)>>;

/// Relies on hyperx's `Link` parser (`FromStr`): turns a raw `Link` header
/// value into its parsed form, failing exactly where the header is
/// malformed.
#[verifier::external_body]
fn parse_link_header(raw: &str) -> (r: Option<hyperx::header::Link>)
    ensures
        match r {
            Some(link) => parsed_pairs(raw@) == Some(link_pairs(link)),
            None => parsed_pairs(raw@) is None,
        },
{
    raw.parse::<hyperx::header::Link>().ok()
}

/// Relies on hyperx's `Link::values`: the `link-value`s of a parsed `Link`
/// header, in header order.
#[verifier::external_body]
fn link_values(link: &hyperx::header::Link) -> (r: Vec<hyperx::header::LinkValue>)
    ensures
        r@.len() == link_pairs(*link).len(),
        forall|i: int|
            0 <= i < r@.len() ==> #[trigger] link_value_pair(r@[i]) == link_pairs(*link)[i],
{
    link.values().to_vec()
}

/// Relies on hyperx's `LinkValue::rel`: whether this link's relations
/// include the `next` relation type.
#[verifier::external_body]
fn has_next_relation(value: &hyperx::header::LinkValue) -> (r: bool)
    ensures
        r == link_value_pair(*value).0,
{
    match value.rel() {
        Some(rels) => rels.contains(&hyperx::header::RelationType::Next),
        None => false,
    }
}

/// Relies on hyperx's `LinkValue::link`: the target IRI of this link.
#[verifier::external_body]
fn link_target(value: &hyperx::header::LinkValue) -> (r: String)
    ensures
        r@ == link_value_pair(*value).1,
{
    value.link().to_owned()
}

/// The target of the first pair flagged as a `next` relation, if any.
pub open spec fn first_next(pairs: Seq<(bool, Seq<char>)>) -> Option<Seq<char>>
    decreases pairs.len(),
{
    if pairs.len() == 0 {
        None
    } else if pairs[0].0 {
        Some(pairs[0].1)
    } else {
        first_next(pairs.drop_first())
    }
}

/// The cursor a step function returned, as a mathematical value.
pub open spec fn cursor_view(r: Option<String>) -> Option<Seq<char>> {
    match r {
        Some(u) => Some(u@),
        None => None,
    }
}

/// The next-page cursor carried by a response's `Link` header: the target
/// of the first link whose relations include `next`. Pagination metadata is
/// a best-effort optimisation, so an absent or malformed header, or one
/// without a `next` relation, is "no next page", never an error.
pub fn next_page_cursor(header: Option<&str>) -> (r: Option<String>)
    ensures
        match header {
            None => r is None,
            Some(raw) => match parsed_pairs(raw@) {
                None => r is None,
                Some(pairs) => cursor_view(r) == first_next(pairs),
            },
        },
{
    let raw = match header {
        Some(raw) => raw,
        None => {
            return None;
        },
    };
    let link = match parse_link_header(raw) {
        Some(link) => link,
        None => {
            return None;
        },
    };
    let ghost pairs = link_pairs(link);
    let values = link_values(&link);
    proof {
        assert(pairs.skip(0) =~= pairs);
    }
    let mut i: usize = 0;
    while i < values.len()
        invariant
            i <= values.len(),
            header == Some(raw),
            parsed_pairs(raw@) == Some(pairs),
            values@.len() == pairs.len(),
            forall|j: int|
                0 <= j < values@.len() ==> #[trigger] link_value_pair(values@[j]) == pairs[j],
            first_next(pairs) == first_next(pairs.skip(i as int)),
        decreases values.len() - i,
    {
        if has_next_relation(&values[i]) {
            let target = link_target(&values[i]);
            proof {
                assert(pairs.skip(i as int)[0] == pairs[i as int]);
                assert(first_next(pairs.skip(i as int)) == Some(pairs[i as int].1));
            }
            return Some(target);
        }
        proof {
            assert(pairs.skip(i as int)[0] == pairs[i as int]);
            assert(pairs.skip(i as int).drop_first() =~= pairs.skip(i as int + 1));
        }
        i += 1;
    }
    proof {
        assert(pairs.skip(pairs.len() as int) =~= Seq::<(bool, Seq<char>)>::empty());
    }
    None
}

} // verus!
