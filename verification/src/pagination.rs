//! Fetch-on-demand cursor walker over one paged listing call.
//!
//! The walker is a pull-based state machine: a FIFO buffer of fetched but
//! unconsumed items and an optional continuation cursor (absent once the
//! listing is exhausted). Pulling pops the buffer's front when it can;
//! otherwise it asks the caller to issue exactly one fetch with the current
//! cursor. The caller hands the fetched page (or the failure) back, and the
//! walk goes on. A failed fetch records one endpoint error in the sink and
//! ends the sequence as if exhausted — no retry, nothing propagates.

use std::collections::VecDeque;

use vstd::prelude::*;

use crate::error::{AdapterError, ErrorSink, ErrorView};

verus! {

/// One page of a paged listing: its items in server order, and whether a
/// continuation cursor came back with it.
pub struct Page<T> {
    pub items: Vec<T>,
    pub more: bool,
}

/// What one pull of the walker asks of its driver.
pub enum Pull<T> {
    /// The next item, in server order.
    Item(T),
    /// Issue one fetch for the page with this ordinal and hand the outcome
    /// back through `supply_page` or `fetch_failed`.
    Fetch(usize),
    /// The listing is exhausted.
    Done,
}

/// The pull-based state machine that walks one paged listing.
pub struct PaginationIterator<T> {
    buffer: VecDeque<T>,
    cursor: Option<usize>,
}

impl<T> PaginationIterator<T> {
    /// The items fetched but not yet consumed, front first.
    pub closed spec fn buffered(self) -> Seq<T> {
        self.buffer@
    }

    /// The ordinal of the next page to fetch; absent once exhausted.
    pub closed spec fn cursor(self) -> Option<usize> {
        self.cursor
    }

    /// A walker about to fetch the first page.
    pub fn new() -> (r: Self)
        ensures
            r.buffered() == Seq::<T>::empty(),
            r.cursor() == Some(0usize),
    {
        let r = PaginationIterator { buffer: VecDeque::new(), cursor: Some(0) };
        proof {
            assert(r.buffered() =~= Seq::<T>::empty());
        }
        r
    }

    /// One pull: the buffer's front item if there is one, else a request to
    /// fetch the page under the cursor, else the end of the sequence.
    pub fn pull(&mut self) -> (r: Pull<T>)
        ensures
            match r {
                Pull::Item(x) => {
                    &&& old(self).buffered().len() > 0
                    &&& x == old(self).buffered()[0]
                    &&& final(self).buffered() == old(self).buffered().drop_first()
                    &&& final(self).cursor() == old(self).cursor()
                },
                Pull::Fetch(c) => {
                    &&& old(self).buffered().len() == 0
                    &&& old(self).cursor() == Some(c)
                    &&& final(self).buffered() == old(self).buffered()
                    &&& final(self).cursor() == old(self).cursor()
                },
                Pull::Done => {
                    &&& old(self).buffered().len() == 0
                    &&& old(self).cursor() is None
                    &&& final(self).buffered() == old(self).buffered()
                    &&& final(self).cursor() == old(self).cursor()
                },
            },
    {
        match self.buffer.pop_front() {
            Some(x) => {
                proof {
                    assert(self.buffered() =~= old(self).buffered().drop_first());
                }
                Pull::Item(x)
            },
            None => {
                match self.cursor {
                    Some(c) => Pull::Fetch(c),
                    None => Pull::Done,
                }
            },
        }
    }

    /// Absorbs a fetched page: the buffer becomes the page's items and the
    /// cursor advances, or clears when no continuation came back.
    pub fn supply_page(&mut self, page: Page<T>)
        requires
            old(self).buffered().len() == 0,
            old(self).cursor() matches Some(c) && c < usize::MAX,
        ensures
            final(self).buffered() == page.items@,
            old(self).cursor() matches Some(c) ==> final(self).cursor() == (if page.more {
                Some((c + 1) as usize)
            } else {
                None::<usize>
            }),
    {
        let Page { mut items, more } = page;
        let ghost target = items@;
        let mut buffer: VecDeque<T> = VecDeque::new();
        while items.len() > 0
            invariant
                items@ + buffer@ =~= target,
            decreases items.len(),
        {
            let x = items.pop().unwrap();
            buffer.push_front(x);
            proof {
                assert(items@ + buffer@ =~= target);
            }
        }
        proof {
            assert(buffer@ =~= target);
        }
        self.buffer = buffer;
        let c = match self.cursor {
            Some(c) => c,
            None => 0,
        };
        self.cursor = if more {
            Some(c + 1)
        } else {
            None
        };
    }

    /// Absorbs a failed fetch: records one endpoint error and ends the
    /// sequence as if exhausted.
    pub fn fetch_failed(&mut self, cause: String, sink: &mut ErrorSink)
        requires
            old(self).buffered().len() == 0,
            old(self).cursor() is Some,
        ensures
            final(self).buffered().len() == 0,
            final(self).cursor() is None,
            final(sink)@ == old(sink)@.push(ErrorView::EndpointError(cause@)),
    {
        self.cursor = None;
        sink.push(AdapterError::EndpointError(cause));
    }
}

/// An in-memory paged listing, standing for the server side of one listing
/// call: the pages in order, and optionally the ordinal of a page whose
/// fetch fails.
pub struct PagedBackend<T> {
    pub pages: Vec<Page<T>>,
    pub fail_at: Option<usize>,
}

/// The items a walk of the given page contents yields when it stops after
/// `stop` pages: the concatenation of those pages in order.
pub open spec fn drained<T>(pages: Seq<Seq<T>>, stop: int) -> Seq<T> {
    pages.take(stop).flatten_alt()
}

impl<T> PagedBackend<T> {
    /// The backend is consistent: at least one page, a continuation exactly
    /// on every page but the last, and the scripted failure in range.
    pub open spec fn wf(self) -> bool {
        &&& self.pages@.len() >= 1
        &&& forall|i: int|
            0 <= i < self.pages@.len() ==> (#[trigger] self.pages@[i].more <==> i + 1
                < self.pages@.len())
        &&& self.fail_at matches Some(f) ==> f < self.pages@.len()
    }

    /// The contents of each page.
    pub open spec fn page_views(self) -> Seq<Seq<T>> {
        self.pages@.map_values(|p: Page<T>| p.items@)
    }

    /// How many pages a walk consumes before it ends: all of them, or those
    /// before the scripted failure.
    pub open spec fn stop(self) -> int {
        match self.fail_at {
            Some(f) => f as int,
            None => self.pages@.len() as int,
        }
    }
}

impl<T: Copy> PagedBackend<T> {
    /// Serves the page with the given ordinal, or nothing when the scripted
    /// failure sits there.
    pub fn fetch(&self, c: usize) -> (r: Option<Page<T>>)
        requires
            c < self.pages@.len(),
        ensures
            match r {
                Some(p) => {
                    &&& self.fail_at != Some(c)
                    &&& p.items@ == self.page_views()[c as int]
                    &&& p.more == self.pages@[c as int].more
                },
                None => self.fail_at == Some(c),
            },
    {
        match self.fail_at {
            Some(f) => {
                if f == c {
                    return None;
                }
            },
            None => {},
        }
        let src = &self.pages[c as usize];
        let mut items: Vec<T> = Vec::new();
        let mut i: usize = 0;
        while i < src.items.len()
            invariant
                i <= src.items@.len(),
                items@ =~= src.items@.take(i as int),
            decreases src.items@.len() - i,
        {
            items.push(src.items[i]);
            i = i + 1;
        }
        proof {
            assert(items@ =~= src.items@);
        }
        Some(Page { items, more: src.more })
    }
}

/// The loop measure of a backend walk: pages left to consume, counting the
/// one under the cursor.
pub open spec fn pages_left(stop: int, cursor: Option<usize>) -> int {
    match cursor {
        Some(c) => stop - c + 1,
        None => 0,
    }
}

/// Walks one paged listing to its end: pulls items in server order, issuing
/// one fetch per page, until the listing is exhausted or a fetch fails. The
/// result holds exactly the items of the pages before the stopping point, in
/// server order; a failure records exactly one endpoint error with the given
/// cause, and a failure-free walk records nothing.
pub fn drain<T: Copy>(backend: &PagedBackend<T>, cause: String, sink: &mut ErrorSink) -> (r: Vec<
    T,
>)
    requires
        backend.wf(),
    ensures
        r@ == drained(backend.page_views(), backend.stop()),
        backend.fail_at is Some ==> final(sink)@ == old(sink)@.push(
            ErrorView::EndpointError(cause@),
        ),
        backend.fail_at is None ==> final(sink)@ == old(sink)@,
{
    let ghost pv = backend.page_views();
    let ghost stop = backend.stop();
    let npages = backend.pages.len();
    let mut pag = PaginationIterator::<T>::new();
    let mut out: Vec<T> = Vec::new();
    let mut cause_opt: Option<String> = Some(cause);
    proof {
        assert(pv.take(0).flatten_alt() =~= Seq::<T>::empty());
        assert(out@ + pag.buffered() =~= Seq::<T>::empty());
    }
    loop
        invariant
            backend.wf(),
            pv == backend.page_views(),
            stop == backend.stop(),
            backend.pages@.len() == npages,
            pag.cursor() matches Some(c) ==> {
                &&& c as int <= stop
                &&& (backend.fail_at is None ==> (c as int) < backend.pages@.len())
                &&& out@ + pag.buffered() == drained(pv, c as int)
                &&& sink@ == old(sink)@
                &&& cause_opt matches Some(s) && s@ == cause@
            },
            pag.cursor() is None ==> {
                &&& out@ + pag.buffered() == drained(pv, stop)
                &&& (backend.fail_at is Some ==> sink@ == old(sink)@.push(
                    ErrorView::EndpointError(cause@),
                ))
                &&& (backend.fail_at is None ==> sink@ == old(sink)@)
            },
        ensures
            out@ == drained(pv, stop),
            backend.fail_at is Some ==> sink@ == old(sink)@.push(
                ErrorView::EndpointError(cause@),
            ),
            backend.fail_at is None ==> sink@ == old(sink)@,
        decreases pages_left(stop, pag.cursor()), pag.buffered().len(),
    {
        let ghost prev_out = out@;
        let ghost prev_buf = pag.buffered();
        let step = pag.pull();
        match step {
            Pull::Item(x) => {
                out.push(x);
                proof {
                    assert(out@ + pag.buffered() =~= prev_out + prev_buf);
                }
            },
            Pull::Fetch(c) => {
                proof {
                    assert((c as int) < backend.pages@.len());
                }
                match backend.fetch(c) {
                    Some(page) => {
                        proof {
                            assert(pv.take(c as int + 1).drop_last() =~= pv.take(c as int));
                            assert(pv.take(c as int + 1).last() == pv[c as int]);
                            assert(drained(pv, c as int + 1) == drained(pv, c as int)
                                + pv[c as int]);
                        }
                        let ghost page_items = page.items@;
                        pag.supply_page(page);
                        proof {
                            assert(out@ + pag.buffered() =~= drained(pv, c as int) + page_items);
                        }
                    },
                    None => {
                        let c = match cause_opt {
                            Some(s) => {
                                cause_opt = None;
                                s
                            },
                            None => String::new(),
                        };
                        pag.fetch_failed(c, sink);
                        proof {
                            assert(out@ + pag.buffered() =~= drained(pv, stop));
                        }
                    },
                }
            },
            Pull::Done => {
                proof {
                    assert(out@ + pag.buffered() =~= out@);
                }
                break ;
            },
        }
    }
    out
}

/// Law: a paged walk is page-split-independent — two failure-free backends
/// that hold the same items in the same order, however differently they are
/// split into pages, drain to the same sequence, namely the concatenation of
/// everything they hold.
pub proof fn lemma_page_split_independent<T>(a: Seq<Seq<T>>, b: Seq<Seq<T>>)
    requires
        a.flatten() == b.flatten(),
    ensures
        drained(a, a.len() as int) == drained(b, b.len() as int),
{
    a.lemma_flatten_and_flatten_alt_are_equivalent();
    b.lemma_flatten_and_flatten_alt_are_equivalent();
    assert(a.take(a.len() as int) =~= a);
    assert(b.take(b.len() as int) =~= b);
}

} // verus!
