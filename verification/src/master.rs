//! The session: one backend handle plus its configuration, driving
//! bounded generations.

use vstd::prelude::*;

use crate::chat::{Message, MessageView};

use crate::config::{Context, Mode};

use crate::errors::{LoadError, MasterError, ResetError, TokenError};

use crate::generator::Generator;

use crate::output::{
    generation_output, lemma_requests_made_all_shown, lemma_requests_made_stops,
    lemma_stream_texts_snoc, lemma_stream_texts_stops, no_eos_before, primed, requests_made,
    stream_texts, Oracle,
};

use crate::sink::Sink;

use crate::telemetry::{physical_memory, throughput_matches, tokens_per_sec, Telemetry};

verus! {

/// A master owns exactly one live backend handle and the configuration of
/// its session, and orchestrates generations on it.
pub struct Master<G> {
    pub ctx: Context,
    pub model: Box<G>,
}

/// What dispatching a session produced: either the session itself, handed
/// back so a serving collaborator can drive it per request, or the
/// telemetry of the one completed local generation.
pub enum RunOutcome<G> {
    Served(Master<G>),
    Completed(Telemetry),
}

impl<G: Generator> Master<G> {
    /// The backend handle is in a usable state.
    pub open spec fn wf(&self) -> bool {
        self.model.wf()
    }

    /// The deterministic answer function of the owned backend.
    pub open spec fn oracle(&self) -> Oracle {
        self.model.oracle()
    }

    /// The conversation the owned backend has been primed with.
    pub open spec fn history(&self) -> Seq<MessageView> {
        self.model.history()
    }

    /// How many tokens the owned backend has produced.
    pub open spec fn produced(&self) -> nat {
        self.model.produced()
    }

    /// Create a new session: load the backend from the configuration.
    /// A fresh session holds an unprimed backend that has produced
    /// nothing, alongside the configuration it was given.
    pub fn new(ctx: Context) -> (r: Result<Master<G>, LoadError>)
        ensures
            r matches Ok(m) ==> m.wf() && m.ctx == ctx && m.history()
                == Seq::<MessageView>::empty() && m.produced() == 0,
    {
        let model = match G::load(ctx.clone()) {
            Ok(model) => model,
            Err(e) => {
                return Err(e);
            },
        };
        Ok(Master { ctx, model })
    }

    /// Reset the master state for a new inference: on success the
    /// backend's conversation and produced count are cleared, while what
    /// it would deterministically answer is unchanged.
    pub fn reset(&mut self) -> (r: Result<(), ResetError>)
        requires
            old(self).wf(),
        ensures
            final(self).wf(),
            final(self).ctx == old(self).ctx,
            final(self).oracle() == old(self).oracle(),
            r is Ok ==> final(self).history() == Seq::<MessageView>::empty() && final(self).produced() == 0,
    {
        self.model.reset()
    }

    /// Dispatch the session by its configured mode, decided once here.
    ///
    /// Served mode: no generation happens; the session is handed back
    /// untouched (for the serving collaborator, which calls `reset` and
    /// `generate` per incoming request) and the sink is left alone.
    ///
    /// Local mode: a system-role and then a user-role message prime the
    /// backend, in that exact order and strictly before any token
    /// request; then exactly one generation streams to `sink`. A failed
    /// append aborts before anything reaches the sink; a failed token
    /// request aborts the generation as [`Master::generate`] states.
    pub fn run<S: Sink>(self, sink: &mut S) -> (r: Result<RunOutcome<G>, MasterError>)
        requires
            self.wf(),
        ensures
            self.ctx.spec_mode() == Mode::Served ==> (r matches Ok(o) && o matches
                RunOutcome::Served(m) && m == self && final(sink).received() == old(sink).received()),
            self.ctx.spec_mode() == Mode::LocalGeneration && r is Ok ==> (r matches Ok(o)
                && o matches RunOutcome::Completed(tel) && final(sink).received() == old(sink).received() + generation_output(
                self.oracle(),
                primed(self.history(), self.ctx.system_prompt@, self.ctx.prompt@),
                self.ctx.prompt@,
                self.ctx.sample_len as int,
            ) && throughput_matches(
                tel.generated as int,
                tel.elapsed_micros as int,
                tel.tokens_per_sec,
            )),
            r matches Err(MasterError::Append(e)) ==> self.ctx.spec_mode()
                == Mode::LocalGeneration && final(sink).received() == old(sink).received(),
            r matches Err(MasterError::Token(e)) ==> self.ctx.spec_mode()
                == Mode::LocalGeneration && (exists|k: int|
                0 <= k <= self.ctx.sample_len && no_eos_before(
                    self.oracle(),
                    primed(self.history(), self.ctx.system_prompt@, self.ctx.prompt@),
                    k,
                ) && final(sink).received() == old(sink).received() + seq![self.ctx.prompt@]
                    + stream_texts(
                    self.oracle(),
                    primed(self.history(), self.ctx.system_prompt@, self.ctx.prompt@),
                    0,
                    k,
                )),
    {
        let mut this = self;
        match this.ctx.mode() {
            Mode::Served => Ok(RunOutcome::Served(this)),
            Mode::LocalGeneration => {
                let system_text = this.ctx.system_prompt.clone();
                match this.model.add_message(Message::system(system_text)) {
                    Ok(u) => u,
                    Err(e) => {
                        return Err(MasterError::Append(e));
                    },
                };
                let user_text = this.ctx.prompt.clone();
                match this.model.add_message(Message::user(user_text)) {
                    Ok(u) => u,
                    Err(e) => {
                        return Err(MasterError::Append(e));
                    },
                };
                let ghost pre_orc = this.model.oracle();
                let ghost pre_hist = this.model.history();
                proof {
                    assert(pre_orc == self.oracle());
                    assert(pre_hist == primed(
                        self.history(),
                        self.ctx.system_prompt@,
                        self.ctx.prompt@,
                    ));
                }
                match this.generate(sink) {
                    Ok(tel) => Ok(RunOutcome::Completed(tel)),
                    Err(e) => Err(MasterError::Token(e)),
                }
            },
        }
    }

    /// Start the generation loop and stream every shown token, bounded by
    /// the configured maximum sample length.
    ///
    /// The sink first receives the configured user prompt, then one text
    /// per produced token in step order — stopping silently at the
    /// backend's first end-of-stream token — and finally exactly one
    /// empty value as the end-of-stream marker. The first produced token
    /// is warmup: the elapsed time behind the telemetry is measured from
    /// just after it, and the throughput figure excludes it from the
    /// count.
    ///
    /// With a bound of zero the backend is asked for nothing and the
    /// call cannot fail. A backend failure propagates at once: whatever
    /// was already shown stays with the sink and no end-of-stream marker
    /// is appended. Memory sampling is best-effort and never fails the
    /// generation.
    pub fn generate<S: Sink>(&mut self, sink: &mut S) -> (r: Result<Telemetry, TokenError>)
        requires
            old(self).wf(),
        ensures
            final(self).wf(),
            final(self).ctx == old(self).ctx,
            final(self).oracle() == old(self).oracle(),
            final(self).history() == old(self).history(),
            r is Ok ==> final(sink).received() == old(sink).received() + generation_output(
                old(self).oracle(),
                old(self).history(),
                old(self).ctx.prompt@,
                old(self).ctx.sample_len as int,
            ) && final(self).produced() == old(self).produced() + requests_made(
                old(self).oracle(),
                old(self).history(),
                0,
                old(self).ctx.sample_len as int,
            ),
            r matches Ok(tel) ==> tel.generated as nat == final(self).produced()
                && throughput_matches(
                tel.generated as int,
                tel.elapsed_micros as int,
                tel.tokens_per_sec,
            ),
            old(self).ctx.sample_len == 0 ==> r is Ok && final(self).produced() == old(self).produced(),
            r is Err ==> exists|k: int|
                0 <= k <= old(self).ctx.sample_len && no_eos_before(
                    old(self).oracle(),
                    old(self).history(),
                    k,
                ) && final(sink).received() == old(sink).received() + seq![old(self).ctx.prompt@]
                    + stream_texts(old(self).oracle(), old(self).history(), 0, k) && final(self).produced() == old(self).produced() + k,
    {
        let mem_before = physical_memory();
        let ghost orc = self.model.oracle();
        let ghost hist = self.model.history();
        let ghost base = sink.received();
        let ghost start_count = self.model.produced();
        let n = self.ctx.sample_len;
        sink.accept(self.ctx.prompt.as_str());
        let mut start_gen = std::time::Instant::now();
        let mut index: usize = 0;
        let mut eos_seen: bool = false;
        while index < n && !eos_seen
            invariant
                self.wf(),
                self.model.oracle() == orc,
                self.model.history() == hist,
                self.ctx == old(self).ctx,
                orc == old(self).oracle(),
                hist == old(self).history(),
                base == old(sink).received(),
                start_count == old(self).produced(),
                n == old(self).ctx.sample_len,
                index <= n,
                no_eos_before(orc, hist, index as int),
                sink.received() == base + seq![old(self).ctx.prompt@] + stream_texts(
                    orc,
                    hist,
                    0,
                    index as int,
                ),
                !eos_seen ==> self.model.produced() == start_count + index,
                eos_seen ==> index < n && orc(hist, index as int).eos && self.model.produced()
                    == start_count + index + 1,
            decreases n - index, (if eos_seen { 0int } else { 1int }),
        {
            if index == 1 {
                start_gen = std::time::Instant::now();
            }
            let token = match self.model.next_token(index) {
                Ok(t) => t,
                Err(e) => {
                    proof {
                        assert(sink.received() == base + seq![old(self).ctx.prompt@]
                            + stream_texts(orc, hist, 0, index as int));
                    }
                    return Err(e);
                },
            };
            if token.is_end_of_stream {
                eos_seen = true;
            } else {
                sink.accept(token.text.as_str());
                proof {
                    lemma_stream_texts_snoc(orc, hist, 0, index as int);
                    assert(sink.received() =~= base + seq![old(self).ctx.prompt@] + stream_texts(
                        orc,
                        hist,
                        0,
                        index as int + 1,
                    ));
                }
                index = index + 1;
            }
        }
        proof {
            if eos_seen {
                lemma_stream_texts_stops(orc, hist, 0, index as int, n as int);
                lemma_requests_made_stops(orc, hist, 0, index as int, n as int);
            } else {
                lemma_requests_made_all_shown(orc, hist, 0, n as int);
            }
        }
        sink.accept("");
        proof {
            reveal_strlit("");
            assert(""@ =~= Seq::<char>::empty());
            assert(sink.received() =~= base + generation_output(
                orc,
                hist,
                old(self).ctx.prompt@,
                n as int,
            ));
        }
        let elapsed = start_gen.elapsed();
        let elapsed_micros = elapsed.as_micros();
        let generated = self.model.generated_tokens();
        let tokens_per_sec = tokens_per_sec(generated, elapsed_micros);
        let mem_after = physical_memory();
        Ok(Telemetry { generated, elapsed_micros, tokens_per_sec, mem_before, mem_after })
    }
}

/// A reset session replays a fresh one. After a successful
/// [`Master::reset`] the conversation is empty again and the backend's
/// answer function is unchanged, while a fresh [`Master::new`] yields an
/// empty conversation outright; so a session just reset and a fresh
/// session with the same configuration and the same deterministic
/// backend, each primed with the configured system and user prompts as
/// local dispatch primes them, pass exactly the same values to their
/// sinks, value for value.
pub proof fn lemma_reset_replays_fresh_session<G: Generator>(
    after_reset: Master<G>,
    fresh: Master<G>,
)
    requires
        after_reset.history() == Seq::<MessageView>::empty(),
        fresh.history() == Seq::<MessageView>::empty(),
        after_reset.oracle() == fresh.oracle(),
        after_reset.ctx == fresh.ctx,
    ensures
        generation_output(
            after_reset.oracle(),
            primed(
                after_reset.history(),
                after_reset.ctx.system_prompt@,
                after_reset.ctx.prompt@,
            ),
            after_reset.ctx.prompt@,
            after_reset.ctx.sample_len as int,
        ) == generation_output(
            fresh.oracle(),
            primed(fresh.history(), fresh.ctx.system_prompt@, fresh.ctx.prompt@),
            fresh.ctx.prompt@,
            fresh.ctx.sample_len as int,
        ),
{
}

} // verus!
