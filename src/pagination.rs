//! Walking a paginated collection one page at a time.
//!
//! An [`Unfolder`] decides, after each page, whether another page is to be
//! fetched and from where; the caller fetches it and hands it back. Items are
//! kept in the order the pages came and, within a page, in the page's order.
use vstd::prelude::*;

use crate::links::{header_view, next_of, next_page_target, LinkValue, LinkValueModel};

verus! {

/// A fetched page as plain values: its parsed `Link` header and its items.
pub type PageModel<T> = (Option<Seq<LinkValueModel>>, Seq<T>);

/// What to do after a page.
#[derive(Debug, Clone, PartialEq, Eq)]
pub enum PageStep {
    /// Fetch the page at this target and hand it to the unfolder.
    Fetch(String),
    /// The collection is complete.
    Finished,
}

pub open spec fn step_target(s: PageStep) -> Option<Seq<char>> {
    match s {
        PageStep::Fetch(t) => Some(t@),
        PageStep::Finished => None,
    }
}

/// One step of the walk: the items gathered so far and the page just
/// fetched give the items gathered after it and the target of the page to
/// fetch next (none when the walk ends). A page with no items ends the walk
/// and adds nothing; a page with items adds them, and the walk goes on to the
/// page its `next` link names, if it names one.
pub open spec fn step<T>(acc: Seq<T>, page: PageModel<T>) -> (Seq<T>, Option<Seq<char>>) {
    if page.1.len() == 0 {
        (acc, None)
    } else {
        (acc + page.1, next_of(page.0))
    }
}

/// The items that a walk gathers when it is handed `pages` in turn, starting
/// from `acc`, until a step ends it or the pages run out.
pub open spec fn unfold_run<T>(acc: Seq<T>, pages: Seq<PageModel<T>>) -> Seq<T>
    decreases pages.len(),
{
    if pages.len() == 0 {
        acc
    } else {
        let (gathered, next) = step(acc, pages[0]);
        if next is None {
            gathered
        } else {
            unfold_run(gathered, pages.drop_first())
        }
    }
}

/// The items of all pages, page after page.
pub open spec fn all_items<T>(pages: Seq<PageModel<T>>) -> Seq<T>
    decreases pages.len(),
{
    if pages.len() == 0 {
        Seq::empty()
    } else {
        pages[0].1 + all_items(pages.drop_first())
    }
}

/// Pages at hand as plain values.
pub open spec fn pages_view<T>(pages: Seq<(Option<Vec<LinkValue>>, Vec<T>)>) -> Seq<PageModel<T>> {
    pages.map_values(|p: (Option<Vec<LinkValue>>, Vec<T>)| (header_view(p.0), p.1@))
}

/// The state of a walk over a paginated collection: the items gathered.
pub struct Unfolder<T> {
    items: Vec<T>,
}

impl<T> Unfolder<T> {
    /// The items gathered so far, in order.
    pub closed spec fn gathered(&self) -> Seq<T> {
        self.items@
    }

    /// A walk that has gathered nothing yet.
    pub fn new() -> (r: Self)
        ensures
            r.gathered() == Seq::<T>::empty(),
    {
        Unfolder { items: Vec::new() }
    }

    /// Takes in a fetched page, its parsed `Link` header and its items, and
    /// says what to do next.
    pub fn on_page(&mut self, link: &Option<Vec<LinkValue>>, items: Vec<T>) -> (r: PageStep)
        ensures
            (final(self).gathered(), step_target(r)) == step(old(self).gathered(), (header_view(*link), items@)),
    {
        if items.len() == 0 {
            return PageStep::Finished;
        }
        let mut items = items;
        self.items.append(&mut items);
        match next_page_target(link) {
            Some(t) => PageStep::Fetch(t),
            None => PageStep::Finished,
        }
    }

    /// The items gathered, in order.
    pub fn into_items(self) -> (r: Vec<T>)
        ensures
            r@ == self.gathered(),
    {
        self.items
    }
}

/// Walks pages that are already at hand, handing them to an [`Unfolder`] in
/// turn until it is finished or the pages run out, and gives the items
/// gathered.
pub fn unfold_pages<T>(pages: Vec<(Option<Vec<LinkValue>>, Vec<T>)>) -> (r: Vec<T>)
    ensures
        r@ == unfold_run(Seq::empty(), pages_view(pages@)),
{
    let ghost models = pages_view(pages@);
    let mut queue = pages;
    let mut walk = Unfolder::new();
    let mut i: usize = 0;
    let n = queue.len();
    assert(models.subrange(0, n as int) =~= models);
    loop
        invariant
            models == pages_view(pages@),
            n == models.len(),
            queue@.len() + i == n,
            i <= n,
            forall|k: int| 0 <= k < queue@.len() ==> (header_view(queue@[k].0), queue@[k].1@) == models[i + k],
            unfold_run(Seq::empty(), models) == unfold_run(walk.gathered(), models.subrange(i as int, n as int)),
        decreases n - i,
    {
        if queue.len() == 0 {
            assert(models.subrange(i as int, n as int).len() == 0);
            return walk.into_items();
        }
        let (link, items) = queue.remove(0);
        let ghost rest = models.subrange(i as int, n as int);
        assert(rest[0] == models[i as int]);
        assert(rest.drop_first() =~= models.subrange(i + 1, n as int));
        let ghost before = walk.gathered();
        let s = walk.on_page(&link, items);
        assert(unfold_run(before, rest) == if step_target(s) is None {
            walk.gathered()
        } else {
            unfold_run(walk.gathered(), rest.drop_first())
        });
        i = i + 1;
        if let PageStep::Finished = s {
            return walk.into_items();
        }
    }
}

proof fn lemma_run_concatenates<T>(acc: Seq<T>, pages: Seq<PageModel<T>>)
    requires
        pages.len() > 0,
        forall|i: int| 0 <= i < pages.len() ==> #[trigger] pages[i].1.len() > 0,
        forall|i: int| 0 <= i < pages.len() - 1 ==> #[trigger] next_of(pages[i].0) is Some,
        next_of(pages.last().0) is None,
    ensures
        unfold_run(acc, pages) == acc + all_items(pages),
    decreases pages.len(),
{
    let rest = pages.drop_first();
    assert(pages[0].1.len() > 0);
    if pages.len() == 1 {
        assert(rest.len() == 0);
        assert(all_items(rest) == Seq::<T>::empty());
        assert(acc + pages[0].1 + Seq::<T>::empty() =~= acc + pages[0].1);
    } else {
        assert(next_of(pages[0].0) is Some);
        assert forall|i: int| 0 <= i < rest.len() implies #[trigger] rest[i].1.len() > 0 by {
            assert(rest[i] == pages[i + 1]);
        }
        assert forall|i: int| 0 <= i < rest.len() - 1 implies #[trigger] next_of(rest[i].0) is Some by {
            assert(rest[i] == pages[i + 1]);
        }
        assert(rest.last() == pages.last());
        lemma_run_concatenates(acc + pages[0].1, rest);
        assert(acc + pages[0].1 + all_items(rest) =~= acc + (pages[0].1 + all_items(rest)));
    }
}

/// A walk over pages that all hold items, each but the last with a `next`
/// link and the last with none, gathers the items of every page, page after
/// page, each page's items in their order.
pub proof fn lemma_unfold_concatenates<T>(pages: Seq<PageModel<T>>)
    requires
        pages.len() > 0,
        forall|i: int| 0 <= i < pages.len() ==> #[trigger] pages[i].1.len() > 0,
        forall|i: int| 0 <= i < pages.len() - 1 ==> #[trigger] next_of(pages[i].0) is Some,
        next_of(pages.last().0) is None,
    ensures
        unfold_run(Seq::empty(), pages) == all_items(pages),
{
    lemma_run_concatenates(Seq::empty(), pages);
    assert(Seq::<T>::empty() + all_items(pages) =~= all_items(pages));
}

/// A walk whose first page holds items and links to a second page that holds
/// none gathers exactly the first page's items, whatever follows.
pub proof fn lemma_unfold_stops_at_empty_page<T>(pages: Seq<PageModel<T>>)
    requires
        pages.len() >= 2,
        pages[0].1.len() > 0,
        next_of(pages[0].0) is Some,
        pages[1].1.len() == 0,
    ensures
        unfold_run(Seq::empty(), pages) == pages[0].1,
{
    let rest = pages.drop_first();
    let first = Seq::<T>::empty() + pages[0].1;
    assert(first =~= pages[0].1);
    assert(rest[0] == pages[1]);
    assert(step(first, rest[0]) == (first, None::<Seq<char>>));
    assert(unfold_run(first, rest) == first);
    assert(step(Seq::<T>::empty(), pages[0]).0 == first);
}

} // verus!
