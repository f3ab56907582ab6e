//! Caption events, their assembly from engine output, and the ordered
//! channel that carries them from the transcription worker to the sink.

use vstd::prelude::*;
use vstd::string::StringExecFns;

verus! {

/// One caption update: the transcribed text and whether it replaces the
/// previously displayed caption (a correction) or starts a new entry.
pub struct CaptionEvent {
    pub text: String,
    pub is_correction: bool,
}

/// The concatenation of a sequence of segment texts, in order.
pub open spec fn concat_texts(segments: Seq<Seq<char>>) -> Seq<char>
    decreases segments.len(),
{
    if segments.len() == 0 {
        Seq::<char>::empty()
    } else {
        concat_texts(segments.drop_last()) + segments.last()
    }
}

/// Builds the caption for one trigger from the engine's segment texts:
/// their concatenation, flagged as a correction exactly when `fix` says
/// so. An empty concatenation still yields an event — silence is a
/// legitimate transcription and must not be dropped.
pub fn assemble_caption(segments: &Vec<String>, fix: bool) -> (ev: CaptionEvent)
    ensures
        ev.text@ == concat_texts(segments.deep_view()),
        ev.is_correction == fix,
{
    let mut text = String::new();
    let mut i: usize = 0;
    while i < segments.len()
        invariant
            i <= segments@.len(),
            text@ == concat_texts(segments.deep_view().take(i as int)),
        decreases segments@.len() - i,
    {
        text.append(segments[i].as_str());
        proof {
            let segs = segments.deep_view();
            assert(segs.take(i + 1).drop_last() =~= segs.take(i as int));
            assert(segs.take(i + 1).last() == segs[i as int]);
        }
        i += 1;
    }
    proof {
        assert(segments.deep_view().take(segments.deep_view().len() as int) =~= segments.deep_view());
    }
    CaptionEvent { text, is_correction: fix }
}

/// The worker's reaction to one engine invocation. A successful engine
/// call — even one that transcribed silence to empty text — yields a
/// caption event carrying the concatenated segments and the correction
/// flag; a failed one yields no event at all, so the worker loop can log
/// and continue rather than stall or crash.
pub fn caption_for_result(segments: &Option<Vec<String>>, fix: bool) -> (r: Option<CaptionEvent>)
    ensures
        r is Some <==> segments is Some,
        segments matches Some(segs) ==> (r matches Some(ev) && ev.text@ == concat_texts(
            segs.deep_view(),
        ) && ev.is_correction == fix),
{
    match segments {
        Some(segs) => Some(assemble_caption(segs, fix)),
        None => None,
    }
}

/// Ordered single-producer, single-consumer hand-off of caption events
/// from the transcription worker to the presentation sink. The receiver
/// observes exactly the emitted events, in emission order, none dropped.
pub struct CaptionChannel {
    queue: Vec<CaptionEvent>,
    hist: Ghost<Seq<CaptionEvent>>,
    taken: Ghost<nat>,
}

impl CaptionChannel {
    /// Every event ever sent, in emission order.
    pub closed spec fn emitted(&self) -> Seq<CaptionEvent> {
        self.hist@
    }

    /// How many events the consumer has received so far.
    pub closed spec fn delivered(&self) -> nat {
        self.taken@
    }

    /// Every event the consumer has received so far, in arrival order.
    pub open spec fn received(&self) -> Seq<CaptionEvent> {
        self.emitted().take(self.delivered() as int)
    }

    /// The queue holds exactly the emitted events not yet delivered.
    pub closed spec fn wf(&self) -> bool {
        &&& self.taken@ <= self.hist@.len()
        &&& self.queue@ == self.hist@.skip(self.taken@ as int)
    }

    /// An empty channel: nothing emitted, nothing delivered.
    pub fn new() -> (ch: Self)
        ensures
            ch.wf(),
            ch.emitted() == Seq::<CaptionEvent>::empty(),
            ch.delivered() == 0,
    {
        let ch = CaptionChannel {
            queue: Vec::new(),
            hist: Ghost(Seq::empty()),
            taken: Ghost(0),
        };
        proof {
            assert(ch.queue@ =~= ch.hist@.skip(0));
        }
        ch
    }

    /// The worker emits one event. Emission appends to the history; no
    /// earlier event is disturbed.
    pub fn send(&mut self, ev: CaptionEvent)
        requires
            old(self).wf(),
        ensures
            final(self).wf(),
            final(self).emitted() == old(self).emitted().push(ev),
            final(self).delivered() == old(self).delivered(),
    {
        proof {
            assert(self.hist@.push(ev).skip(self.taken@ as int) =~= self.hist@.skip(
                self.taken@ as int,
            ).push(ev));
        }
        self.queue.push(ev);
        self.hist = Ghost(self.hist@.push(ev));
    }

    /// The sink receives the next event, if any: always the oldest not yet
    /// delivered, so events arrive in exactly the order they were emitted.
    pub fn recv(&mut self) -> (r: Option<CaptionEvent>)
        requires
            old(self).wf(),
        ensures
            final(self).wf(),
            final(self).emitted() == old(self).emitted(),
            old(self).delivered() < old(self).emitted().len() ==> (r matches Some(ev) && ev
                == old(self).emitted()[old(self).delivered() as int] && final(self).delivered()
                == old(self).delivered() + 1 && final(self).received() == old(self).received().push(
                ev,
            )),
            old(self).delivered() == old(self).emitted().len() ==> (r is None
                && final(self).delivered() == old(self).delivered()),
    {
        if self.queue.len() == 0 {
            None
        } else {
            let ev = self.queue.remove(0);
            proof {
                assert(self.queue@ =~= self.hist@.skip(self.taken@ as int + 1));
            }
            self.taken = Ghost(self.taken@ + 1);
            proof {
                assert(self.received() =~= old(self).received().push(
                    old(self).emitted()[old(self).delivered() as int],
                ));
            }
            Some(ev)
        }
    }

    /// The tail of the worker's cycle: reacts to one engine invocation
    /// and emits the caption downstream. A successful invocation emits
    /// exactly one event — the concatenated segments under the trigger's
    /// correction flag, empty text included — appended in order behind
    /// everything emitted before; a failed one emits nothing, and the
    /// loop can go on.
    pub fn emit_transcription(
        &mut self,
        segments: &Option<Vec<String>>,
        fix: bool,
    ) -> (emitted: bool)
        requires
            old(self).wf(),
        ensures
            final(self).wf(),
            final(self).delivered() == old(self).delivered(),
            emitted == (segments is Some),
            segments matches Some(segs) ==> final(self).emitted() == old(self).emitted().push(
                final(self).emitted().last(),
            ),
            segments matches Some(segs) ==> final(self).emitted().last().text@ == concat_texts(
                segs.deep_view(),
            ),
            segments is Some ==> final(self).emitted().last().is_correction == fix,
            segments is None ==> final(self).emitted() == old(self).emitted(),
    {
        match caption_for_result(segments, fix) {
            Some(ev) => {
                self.send(ev);
                true
            },
            None => false,
        }
    }

    /// Append-only ordering law: at every point, what the sink has
    /// received is exactly a prefix of what the worker has emitted — the
    /// same events, in the same order, with none dropped or reordered.
    pub proof fn lemma_received_prefix_of_emitted(&self)
        requires
            self.wf(),
        ensures
            self.received().len() == self.delivered() <= self.emitted().len(),
            self.received() == self.emitted().take(self.received().len() as int),
            self.emitted() == self.received() + self.emitted().skip(self.received().len() as int),
    {
        assert(self.emitted() =~= self.received() + self.emitted().skip(
            self.received().len() as int,
        ));
    }
}

} // verus!
