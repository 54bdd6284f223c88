//! The consumer a generation streams its output to.

use vstd::prelude::*;

verus! {

/// A consumer of text, called synchronously once per shown token, in
/// generation order, after an initial call carrying the prompt and before
/// one final call carrying an empty value as the authoritative
/// end-of-stream marker. A sink must not expect further calls after the
/// empty-value call, and a buffering sink should flush no later than that
/// call.
///
/// The specification records every value ever accepted, in order, so a
/// caller's contract can pin the exact call sequence down.
pub trait Sink {
    /// Every value this sink has accepted, in call order. The default
    /// records nothing: an unverified sink outside this crate may leave
    /// it at that, at the price of this trait's contract saying nothing
    /// about what such a sink was handed.
    open spec fn received(&self) -> Seq<Seq<char>> {
        Seq::empty()
    }

    /// Accept the next value of the stream.
    fn accept(&mut self, data: &str)
        ensures
            final(self).received() == old(self).received().push(data@),
    ;
}

/// A sink that simply collects everything it is handed, in order.
pub struct VecSink {
    pub items: Vec<String>,
}

impl VecSink {
    /// A collecting sink that has received nothing yet.
    pub fn new() -> (s: VecSink)
        ensures
            s.received() == Seq::<Seq<char>>::empty(),
    {
        VecSink { items: Vec::new() }
    }
}

impl Sink for VecSink {
    open spec fn received(&self) -> Seq<Seq<char>> {
        self.items.deep_view()
    }

    fn accept(&mut self, data: &str) {
        self.items.push(data.to_owned());
        proof {
            assert(self.items.deep_view() =~= old(self).items.deep_view().push(data@));
        }
    }
}

} // verus!
