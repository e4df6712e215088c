//! The pagination protocol: one algorithm that presents any page-returning
//! listing as a forward sequence of items, fetching further pages on demand.
//!
//! The protocol decides; the program around it performs. `step` either
//! yields a buffered item, or asks for the next page to be fetched under
//! derived options, or signals the end. The fetch outcome is handed back
//! through `feed`: a fetched page that buffers nothing ends the sequence,
//! whatever its termination metadata still claims. A fetch failure during
//! advancement also ends the sequence instead of surfacing the error — a
//! documented limitation, kept behind `FETCH_FAILURE_ENDS_SEQUENCE`.

use vstd::prelude::*;

use crate::builder::{ParamName, SearchOptions};
use crate::errors::JiraError;
use crate::text::dec_digits;

verus! {

/// The policy for a page fetch that fails while advancing: the sequence
/// ends, and the error is not surfaced.
pub const FETCH_FAILURE_ENDS_SEQUENCE: bool = true;

/// One fetched batch of a paginated listing, with its offset, size and
/// termination metadata. The two termination policies of the service —
/// an explicit last-page flag, or a total count — both answer through
/// `spec_more`.
pub trait PagedResponse: Sized {
    type Item;

    /// The items of this page still buffered.
    spec fn buffered(&self) -> Seq<Self::Item>;

    /// The zero-based offset of the first item of this page.
    spec fn spec_start_at(&self) -> u64;

    /// The page size.
    spec fn spec_max_results(&self) -> u64;

    /// Whether more pages remain after this one, by this page's metadata
    /// alone.
    spec fn spec_more(&self) -> bool;

    /// Returns the page's offset.
    fn start_at(&self) -> (r: u64)
        ensures
            r == self.spec_start_at(),
    ;

    /// Returns the page size.
    fn max_results(&self) -> (r: u64)
        ensures
            r == self.spec_max_results(),
    ;

    /// Returns whether more pages remain after this one.
    fn more_pages(&self) -> (r: bool)
        ensures
            r == self.spec_more(),
    ;

    /// Returns whether any item is still buffered.
    fn has_buffered(&self) -> (r: bool)
        ensures
            r == (self.buffered().len() > 0),
    ;

    /// Removes and returns the last buffered item; the metadata stays.
    fn pop(&mut self) -> (r: Option<Self::Item>)
        ensures
            final(self).spec_start_at() == old(self).spec_start_at(),
            final(self).spec_max_results() == old(self).spec_max_results(),
            final(self).spec_more() == old(self).spec_more(),
            old(self).buffered().len() == 0 ==> r is None && final(self).buffered() == old(self).buffered(),
            old(self).buffered().len() > 0 ==> r == Some(old(self).buffered().last()) && final(self).buffered() == old(self).buffered().drop_last(),
    ;
}

/// What the protocol asks for next.
#[derive(Debug)]
pub enum Step<T> {
    /// One more item of the current page.
    Yield(T),
    /// Fetch the next page under these derived options, then `feed` the
    /// outcome back.
    Fetch(SearchOptions),
    /// The sequence has ended.
    End,
}

/// The protocol's state: the buffered page, the caller's fixed options the
/// next page's options are derived from, and whether the sequence ended.
pub struct Paginator<P: PagedResponse> {
    page: P,
    options: SearchOptions,
    stopped: bool,
}

impl<P: PagedResponse> Paginator<P> {
    /// The buffered page.
    pub closed spec fn spec_page(self) -> P {
        self.page
    }

    /// The caller's fixed options.
    pub closed spec fn spec_options(self) -> SearchOptions {
        self.options
    }

    /// Whether the sequence has ended for good.
    pub closed spec fn spec_stopped(self) -> bool {
        self.stopped
    }

    /// Whether the protocol's next move is a page fetch: the buffer is
    /// exhausted, the sequence has not ended, and the termination predicate
    /// says more pages remain.
    pub open spec fn wants_fetch_spec(self) -> bool {
        self.spec_page().buffered().len() == 0 && !self.spec_stopped()
            && self.spec_page().spec_more()
    }

    /// The options map that the next page is fetched under: the fixed
    /// options with `startAt` advanced past this page and `maxResults` held.
    pub open spec fn next_options_spec(self) -> Map<ParamName, Seq<char>> {
        self.spec_options()@.insert(
            ParamName::MaxResults,
            dec_digits(self.spec_page().spec_max_results() as nat),
        ).insert(
            ParamName::StartAt,
            dec_digits(
                (self.spec_page().spec_start_at() + self.spec_page().spec_max_results()) as nat,
            ),
        )
    }

    /// Starts the protocol from the eager first fetch. Fails exactly where
    /// that fetch failed, returning its error: no sequence is produced
    /// without at least one attempted page.
    pub fn new(first: Result<P, JiraError>, options: SearchOptions) -> (r: Result<
        Paginator<P>,
        JiraError,
    >)
        ensures
            r is Ok <==> first is Ok,
            r matches Ok(p) ==> first matches Ok(page) && p.spec_page() == page && p.spec_options()
                == options && !p.spec_stopped(),
            r matches Err(e) ==> first matches Err(e0) && e == e0,
    {
        match first {
            Ok(page) => Ok(Paginator { page, options, stopped: false }),
            Err(error) => Err(error),
        }
    }

    /// The buffered page.
    pub fn page(&self) -> (r: &P)
        ensures
            *r == self.spec_page(),
    {
        &self.page
    }

    /// Removes and returns the last buffered item, if one is left.
    pub fn next_item(&mut self) -> (r: Option<P::Item>)
        ensures
            final(self).spec_options() == old(self).spec_options(),
            final(self).spec_stopped() == old(self).spec_stopped(),
            final(self).spec_page().spec_start_at() == old(self).spec_page().spec_start_at(),
            final(self).spec_page().spec_max_results() == old(self).spec_page().spec_max_results(),
            final(self).spec_page().spec_more() == old(self).spec_page().spec_more(),
            old(self).spec_page().buffered().len() == 0 ==> r is None && final(self).spec_page().buffered() == old(self).spec_page().buffered(),
            old(self).spec_page().buffered().len() > 0 ==> r == Some(
                old(self).spec_page().buffered().last(),
            ) && final(self).spec_page().buffered() == old(self).spec_page().buffered().drop_last(),
    {
        self.page.pop()
    }

    /// Returns whether the protocol's next move is a page fetch.
    pub fn needs_fetch(&self) -> (r: bool)
        ensures
            r == self.wants_fetch_spec(),
    {
        !self.page.has_buffered() && !self.stopped && self.page.more_pages()
    }

    /// Derives the next page's options from the fixed options and this
    /// page's metadata.
    pub fn next_options(&self) -> (r: SearchOptions)
        requires
            self.spec_page().spec_start_at() + self.spec_page().spec_max_results() <= u64::MAX,
        ensures
            r@ == self.next_options_spec(),
    {
        let max = self.page.max_results();
        let start = self.page.start_at();
        self.options.as_builder().max_results(max).start_at(start + max).build()
    }

    /// Hands a fetch outcome back: a fetched page replaces the buffer, and
    /// a page that buffered nothing ends the sequence, whatever its
    /// termination metadata claims; a failure ends the sequence too, by the
    /// named policy.
    pub fn feed(&mut self, fetched: Result<P, JiraError>)
        ensures
            final(self).spec_options() == old(self).spec_options(),
            fetched matches Ok(page) ==> final(self).spec_page() == page,
            fetched matches Ok(page) ==> (page.buffered().len() > 0 ==> final(self).spec_stopped()
                == old(self).spec_stopped()),
            fetched matches Ok(page) ==> (page.buffered().len() == 0 ==> final(self).spec_stopped()),
            fetched is Err ==> final(self).spec_page() == old(self).spec_page() && final(self).spec_stopped() == (old(self).spec_stopped() || FETCH_FAILURE_ENDS_SEQUENCE),
    {
        match fetched {
            Ok(page) => {
                let empty = !page.has_buffered();
                self.page = page;
                if empty {
                    self.stopped = true;
                }
            },
            Err(_) => {
                if FETCH_FAILURE_ENDS_SEQUENCE {
                    self.stopped = true;
                }
            },
        }
    }

    /// The protocol's one advancement move: yield a buffered item if one is
    /// left; otherwise ask for a fetch if the termination predicate admits
    /// more pages and the sequence has not ended; otherwise signal the end.
    pub fn step(&mut self) -> (r: Step<P::Item>)
        requires
            old(self).spec_page().spec_start_at() + old(self).spec_page().spec_max_results()
                <= u64::MAX,
        ensures
            final(self).spec_options() == old(self).spec_options(),
            final(self).spec_stopped() == old(self).spec_stopped(),
            final(self).spec_page().spec_start_at() == old(self).spec_page().spec_start_at(),
            final(self).spec_page().spec_max_results() == old(self).spec_page().spec_max_results(),
            final(self).spec_page().spec_more() == old(self).spec_page().spec_more(),
            old(self).spec_page().buffered().len() > 0 ==> (r matches Step::Yield(x) && x == old(self).spec_page().buffered().last() && final(self).spec_page().buffered() == old(self).spec_page().buffered().drop_last()),
            old(self).spec_page().buffered().len() == 0 ==> final(self).spec_page().buffered()
                == old(self).spec_page().buffered(),
            old(self).wants_fetch_spec() ==> (r matches Step::Fetch(o) && o@ == old(self).next_options_spec()),
            (old(self).spec_page().buffered().len() == 0 && !old(self).wants_fetch_spec()) ==> r is
                End,
    {
        match self.next_item() {
            Some(item) => Step::Yield(item),
            None => {
                if self.needs_fetch() {
                    Step::Fetch(self.next_options())
                } else {
                    Step::End
                }
            },
        }
    }
}

/// The buffer after a number of single-item removals from the end.
pub open spec fn after_pops<T>(items: Seq<T>, n: nat) -> Seq<T>
    decreases n,
{
    if n == 0 || items.len() == 0 {
        items
    } else {
        after_pops(items.drop_last(), (n - 1) as nat)
    }
}

/// Law: each advancement on a non-empty buffer removes exactly one item
/// from its end — `step` and `next_item` say so — hence after as many
/// removals as the fetched pages held items, the buffer is empty, and the
/// move after that is never a yield.
pub proof fn lemma_round_trip<T>(items: Seq<T>, n: nat)
    requires
        n == items.len(),
    ensures
        after_pops(items, n).len() == 0,
    decreases n,
{
    if items.len() > 0 {
        lemma_round_trip(items.drop_last(), (n - 1) as nat);
    }
}

/// Law: a page fetch is only wanted where the page's own termination
/// predicate admits more pages; whatever is still buffered, a page that
/// denies more pages is never re-fetched, and a yielded item never comes
/// from a fetch that the predicate forbade.
pub proof fn lemma_termination<P: PagedResponse>(p: Paginator<P>)
    ensures
        !p.spec_page().spec_more() ==> !p.wants_fetch_spec(),
{
}

} // verus!
