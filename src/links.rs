//! Link relations carried by a response's `Link` header.
use vstd::prelude::*;
use vstd::string::*;

verus! {

/// One link value of a `Link` header: its target and, where the header gave
/// one, its list of relation types, each as text (`next`, `prev`, ...).
#[derive(Debug, Clone, PartialEq, Eq)]
pub struct LinkValue {
    pub target: String,
    pub rel: Option<Vec<String>>,
}

/// A link value as plain text: the target and the relation types.
pub type LinkValueModel = (Seq<char>, Option<Seq<Seq<char>>>);

pub open spec fn texts_view(rs: Seq<String>) -> Seq<Seq<char>> {
    rs.map_values(|s: String| s@)
}

pub open spec fn rel_view(rel: Option<Vec<String>>) -> Option<Seq<Seq<char>>> {
    match rel {
        Some(rs) => Some(texts_view(rs@)),
        None => None,
    }
}

impl View for LinkValue {
    type V = LinkValueModel;

    open spec fn view(&self) -> LinkValueModel {
        (self.target@, rel_view(self.rel))
    }
}

pub open spec fn values_view(vs: Seq<LinkValue>) -> Seq<LinkValueModel> {
    vs.map_values(|v: LinkValue| v@)
}

pub open spec fn header_view(h: Option<Vec<LinkValue>>) -> Option<Seq<LinkValueModel>> {
    match h {
        Some(vs) => Some(values_view(vs@)),
        None => None,
    }
}

/// What hyperx's `Link` parser makes of a header's text: `None` where it
/// refuses the text, else the link values in the order they appear.
pub uninterp spec fn link_header_values(s: Seq<char>) -> Option<Seq<LinkValueModel>>;

/// Relies on hyperx's `Link::from_str`, with `LinkValue::link` and
/// `LinkValue::rel`: the parsed link values, each relation type turned into
/// its text by its `Display` impl.
#[verifier::external_body]
pub(crate) fn parse_link_header(s: &str) -> (r: Option<Vec<LinkValue>>)
    ensures
        header_view(r) == link_header_values(s@),
{
    s.parse::<hyperx::header::Link>().ok().map(|l| l.values().iter().map(|v| LinkValue {
        target: v.link().to_string(),
        rel: v.rel().map(|rs| rs.iter().map(|t| t.to_string()).collect()),
    }).collect())
}

/// The relation type that names the following page.
pub const NEXT_REL: &'static str = "next";

/// Whether a list of relation types holds the `next` relation.
pub open spec fn is_next_rel(rel: Option<Seq<Seq<char>>>) -> bool {
    match rel {
        Some(rs) => rs.contains(NEXT_REL@),
        None => false,
    }
}

/// The target of the first link value whose relations hold `next`.
pub open spec fn first_next(vs: Seq<LinkValueModel>) -> Option<Seq<char>>
    decreases vs.len(),
{
    if vs.len() == 0 {
        None
    } else if is_next_rel(vs[0].1) {
        Some(vs[0].0)
    } else {
        first_next(vs.drop_first())
    }
}

/// The target of the following page that a header advertises, if any.
pub open spec fn next_of(h: Option<Seq<LinkValueModel>>) -> Option<Seq<char>> {
    match h {
        Some(vs) => first_next(vs),
        None => None,
    }
}

fn has_next_rel(v: &LinkValue) -> (r: bool)
    ensures
        r == is_next_rel(rel_view(v.rel)),
{
    match v.rel.as_ref() {
        None => false,
        Some(rs) => {
            let next = String::from_str(NEXT_REL);
            let ghost view = rel_view(v.rel).unwrap();
            let mut j: usize = 0;
            while j < rs.len()
                invariant
                    view == texts_view(rs@),
                    rel_view(v.rel) == Some(view),
                    next@ == NEXT_REL@,
                    j <= rs.len(),
                    forall|k: int| 0 <= k < j ==> view[k] != NEXT_REL@,
                decreases rs.len() - j,
            {
                let same = rs[j].eq(&next);
                assert(view[j as int] == rs@[j as int]@);
                if same {
                    assert(view[j as int] == NEXT_REL@);
                    assert(view.contains(NEXT_REL@));
                    return true;
                }
                j = j + 1;
            }
            assert(!view.contains(NEXT_REL@));
            false
        },
    }
}

/// The target of the first link value whose relation types hold `next`.
pub fn next_link(values: &Vec<LinkValue>) -> (r: Option<String>)
    ensures
        match r {
            Some(t) => first_next(values_view(values@)) == Some(t@),
            None => first_next(values_view(values@)) is None,
        },
{
    let ghost all = values_view(values@);
    let mut i: usize = 0;
    assert(all.subrange(0, all.len() as int) =~= all);
    while i < values.len()
        invariant
            all == values_view(values@),
            i <= values.len(),
            first_next(all) == first_next(all.subrange(i as int, all.len() as int)),
        decreases values.len() - i,
    {
        let ghost rest = all.subrange(i as int, all.len() as int);
        assert(rest[0] == values[i as int]@);
        assert(rest.drop_first() =~= all.subrange(i + 1, all.len() as int));
        if has_next_rel(&values[i]) {
            return Some(values[i].target.clone());
        }
        i = i + 1;
    }
    assert(all.subrange(i as int, all.len() as int).len() == 0);
    None
}

/// The target of the following page that a parsed header advertises.
pub fn next_page_target(link: &Option<Vec<LinkValue>>) -> (r: Option<String>)
    ensures
        match r {
            Some(t) => next_of(header_view(*link)) == Some(t@),
            None => next_of(header_view(*link)) is None,
        },
{
    match link {
        Some(vs) => next_link(vs),
        None => None,
    }
}

} // verus!
