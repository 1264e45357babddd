//! Typed recoverable errors and the shared append-only error sink.

use vstd::prelude::*;

verus! {

/// A recoverable failure met while resolving a query.
///
/// Neither variant aborts the query: an entrypoint whose game filter is
/// outside the supported set yields an empty sequence, and a failed paged
/// listing ends early. The driver learns that results are partial only by
/// inspecting the sink.
#[derive(Debug, Clone, PartialEq, Eq)]
pub enum AdapterError {
    /// An entrypoint's `game` filter held a value outside the supported set.
    InvalidGame(String),
    /// An underlying paged request failed; the text describes the cause.
    EndpointError(String),
}

/// The mathematical image of one recorded error.
pub enum ErrorView {
    InvalidGame(Seq<char>),
    EndpointError(Seq<char>),
}

impl View for AdapterError {
    type V = ErrorView;

    open spec fn view(&self) -> ErrorView {
        match self {
            AdapterError::InvalidGame(s) => ErrorView::InvalidGame(s@),
            AdapterError::EndpointError(s) => ErrorView::EndpointError(s@),
        }
    }
}

/// An append-only log of recoverable failures, accumulated across one query
/// execution. It is never cleared by the resolvers themselves; the query
/// driver inspects and clears it.
#[derive(Debug)]
pub struct ErrorSink {
    entries: Vec<AdapterError>,
}

impl View for ErrorSink {
    type V = Seq<ErrorView>;

    closed spec fn view(&self) -> Seq<ErrorView> {
        self.entries@.map_values(|e: AdapterError| e@)
    }
}

impl ErrorSink {
    /// A fresh sink with nothing recorded.
    pub fn new() -> (r: ErrorSink)
        ensures
            r@ == Seq::<ErrorView>::empty(),
    {
        let r = ErrorSink { entries: Vec::new() };
        proof {
            assert(r@ =~= Seq::<ErrorView>::empty());
        }
        r
    }

    /// Appends one error; everything recorded earlier stays.
    pub fn push(&mut self, e: AdapterError)
        ensures
            final(self)@ == old(self)@.push(e@),
    {
        let ghost oldview = self@;
        let ghost ev = e@;
        self.entries.push(e);
        proof {
            assert(self@ =~= oldview.push(ev));
        }
    }

    /// How many errors have been recorded.
    pub fn len(&self) -> (n: usize)
        ensures
            n == self@.len(),
    {
        self.entries.len()
    }

    /// Read access to the recorded errors, oldest first.
    pub fn entries(&self) -> (r: &Vec<AdapterError>)
        ensures
            r@.map_values(|e: AdapterError| e@) == self@,
    {
        &self.entries
    }

    /// Forgets everything recorded so far.
    pub fn clear(&mut self)
        ensures
            final(self)@ == Seq::<ErrorView>::empty(),
    {
        self.entries.clear();
        proof {
            assert(self@ =~= Seq::<ErrorView>::empty());
        }
    }
}

} // verus!
