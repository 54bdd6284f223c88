//! What one bounded generation passes to its sink, as a mathematical value.
//!
//! A backend is abstracted by an [`Oracle`]: the token it would produce
//! for a given primed conversation and step index. Everything the
//! generation loop emits is a function of the oracle, the conversation at
//! loop entry, the configured prompt and the sample-length bound; the
//! lemmas here pin down the shape of that output.

use vstd::prelude::*;

use crate::chat::{MessageView, Role};

use crate::token::TokenView;

verus! {

/// What a deterministic backend would answer: the token for step `index`
/// of a generation primed with the given conversation.
pub type Oracle = spec_fn(Seq<MessageView>, int) -> TokenView;

/// The token texts shown for step indices `from..n`: one per step, in
/// step order, stopping early (and silently) at the first token that
/// signals end-of-stream.
pub open spec fn stream_texts(orc: Oracle, hist: Seq<MessageView>, from: int, n: int) -> Seq<
    Seq<char>,
>
    decreases n - from,
{
    if from >= n || orc(hist, from).eos {
        Seq::empty()
    } else {
        seq![orc(hist, from).text] + stream_texts(orc, hist, from + 1, n)
    }
}

/// How many tokens the loop requests from the backend for step indices
/// `from..n`: one per shown text, plus the end-of-stream token itself when
/// the stream ends before the bound.
pub open spec fn requests_made(orc: Oracle, hist: Seq<MessageView>, from: int, n: int) -> int
    decreases n - from,
{
    if from >= n {
        0
    } else if orc(hist, from).eos {
        1
    } else {
        1 + requests_made(orc, hist, from + 1, n)
    }
}

/// No token before step `k` signals end-of-stream.
pub open spec fn no_eos_before(orc: Oracle, hist: Seq<MessageView>, k: int) -> bool {
    forall|j: int| 0 <= j < k ==> !(#[trigger] orc(hist, j)).eos
}

/// Everything one local generation passes to its sink, in order: first
/// the user prompt, then each shown token text, then one empty value as
/// the end-of-stream marker.
pub open spec fn generation_output(
    orc: Oracle,
    hist: Seq<MessageView>,
    prompt: Seq<char>,
    n: int,
) -> Seq<Seq<char>> {
    seq![prompt] + stream_texts(orc, hist, 0, n) + seq![Seq::<char>::empty()]
}

/// A conversation extended by a system-role and then a user-role message,
/// in that order, as the dispatcher primes it before generating.
pub open spec fn primed(
    hist: Seq<MessageView>,
    system_text: Seq<char>,
    user_text: Seq<char>,
) -> Seq<MessageView> {
    hist.push(MessageView { role: Role::System, text: system_text }).push(
        MessageView { role: Role::User, text: user_text },
    )
}

/// Extending an all-shown stream by one more shown step appends exactly
/// that step's text.
pub proof fn lemma_stream_texts_snoc(orc: Oracle, hist: Seq<MessageView>, from: int, k: int)
    requires
        from <= k,
        forall|j: int| from <= j <= k ==> !(#[trigger] orc(hist, j)).eos,
    ensures
        stream_texts(orc, hist, from, k + 1) == stream_texts(orc, hist, from, k).push(
            orc(hist, k).text,
        ),
    decreases k - from,
{
    if from == k {
        assert(stream_texts(orc, hist, from, k) == Seq::<Seq<char>>::empty());
        assert(stream_texts(orc, hist, from + 1, k + 1) == Seq::<Seq<char>>::empty());
        assert(stream_texts(orc, hist, from, k + 1) =~= stream_texts(orc, hist, from, k).push(
            orc(hist, k).text,
        ));
    } else {
        lemma_stream_texts_snoc(orc, hist, from + 1, k);
        assert(stream_texts(orc, hist, from, k + 1) =~= stream_texts(orc, hist, from, k).push(
            orc(hist, k).text,
        ));
    }
}

/// Once an end-of-stream token stands at step `k`, a larger bound shows
/// nothing beyond what the bound `k` shows.
pub proof fn lemma_stream_texts_stops(
    orc: Oracle,
    hist: Seq<MessageView>,
    from: int,
    k: int,
    n: int,
)
    requires
        from <= k < n,
        forall|j: int| from <= j < k ==> !(#[trigger] orc(hist, j)).eos,
        orc(hist, k).eos,
    ensures
        stream_texts(orc, hist, from, n) == stream_texts(orc, hist, from, k),
    decreases k - from,
{
    if from == k {
        assert(stream_texts(orc, hist, from, n) =~= stream_texts(orc, hist, from, k));
    } else {
        lemma_stream_texts_stops(orc, hist, from + 1, k, n);
        assert(stream_texts(orc, hist, from, n) =~= stream_texts(orc, hist, from, k));
    }
}

/// Each shown text is the oracle's text for its step, and no shown step
/// signals end-of-stream; at most `n - from` texts are shown.
pub proof fn lemma_stream_texts_elems(orc: Oracle, hist: Seq<MessageView>, from: int, n: int)
    ensures
        stream_texts(orc, hist, from, n).len() <= if n - from >= 0 {
            n - from
        } else {
            0
        },
        forall|i: int|
            0 <= i < stream_texts(orc, hist, from, n).len() ==> #[trigger] stream_texts(
                orc,
                hist,
                from,
                n,
            )[i] == orc(hist, from + i).text && !orc(hist, from + i).eos,
    decreases n - from,
{
    if from >= n || orc(hist, from).eos {
    } else {
        lemma_stream_texts_elems(orc, hist, from + 1, n);
    }
}

/// The backend is asked for at most `n - from` tokens, and for none at
/// all when the bound leaves no steps.
pub proof fn lemma_requests_made_bounds(orc: Oracle, hist: Seq<MessageView>, from: int, n: int)
    ensures
        0 <= requests_made(orc, hist, from, n),
        requests_made(orc, hist, from, n) <= if n - from >= 0 {
            n - from
        } else {
            0
        },
    decreases n - from,
{
    if from >= n || orc(hist, from).eos {
    } else {
        lemma_requests_made_bounds(orc, hist, from + 1, n);
    }
}

/// While no token signals end-of-stream, every step up to the bound asks
/// the backend for exactly one token.
pub proof fn lemma_requests_made_all_shown(orc: Oracle, hist: Seq<MessageView>, from: int, n: int)
    requires
        from <= n,
        forall|j: int| from <= j < n ==> !(#[trigger] orc(hist, j)).eos,
    ensures
        requests_made(orc, hist, from, n) == n - from,
    decreases n - from,
{
    if from < n {
        lemma_requests_made_all_shown(orc, hist, from + 1, n);
    }
}

/// With the first end-of-stream token at step `k`, the backend is asked
/// for exactly the tokens up to and including that one.
pub proof fn lemma_requests_made_stops(
    orc: Oracle,
    hist: Seq<MessageView>,
    from: int,
    k: int,
    n: int,
)
    requires
        from <= k < n,
        forall|j: int| from <= j < k ==> !(#[trigger] orc(hist, j)).eos,
        orc(hist, k).eos,
    ensures
        requests_made(orc, hist, from, n) == k - from + 1,
    decreases k - from,
{
    if from < k {
        lemma_requests_made_stops(orc, hist, from + 1, k, n);
    }
}

/// For every bound `n >= 0`, a generation's output opens with the prompt,
/// closes with exactly one empty end-of-stream marker, and shows at most
/// `n` token texts in between; no text is shown at or after the first
/// end-of-stream token.
pub proof fn lemma_generation_output_shape(
    orc: Oracle,
    hist: Seq<MessageView>,
    prompt: Seq<char>,
    n: int,
)
    requires
        0 <= n,
    ensures
        generation_output(orc, hist, prompt, n).len() == 2 + stream_texts(
            orc,
            hist,
            0,
            n,
        ).len(),
        stream_texts(orc, hist, 0, n).len() <= n,
        generation_output(orc, hist, prompt, n)[0] == prompt,
        generation_output(orc, hist, prompt, n).last() == Seq::<char>::empty(),
        forall|i: int|
            0 <= i < stream_texts(orc, hist, 0, n).len() ==> generation_output(orc, hist, prompt, n)[i
                + 1] == (#[trigger] orc(hist, i)).text && !orc(hist, i).eos,
{
    lemma_stream_texts_elems(orc, hist, 0, n);
}

/// With a bound of zero the output is the prompt and then immediately the
/// end-of-stream marker, and the backend is asked for nothing.
pub proof fn lemma_generation_output_empty(
    orc: Oracle,
    hist: Seq<MessageView>,
    prompt: Seq<char>,
)
    ensures
        generation_output(orc, hist, prompt, 0) =~= seq![prompt, Seq::<char>::empty()],
        requests_made(orc, hist, 0, 0) == 0,
{
}

} // verus!
