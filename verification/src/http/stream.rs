//! Decoding a server-sent-event session into typed stream entries.
//!
//! The host's event loop owns the live source and feeds each raw event
//! to [`decode_step`]; the step says what to forward to the consumer and
//! whether to stop.  [`decode_all`] runs the same decision over a whole
//! recorded session.  The laws at the end pin the session-level
//! behaviour down: the sentinel ends the session silently, a broken
//! connection ends it with exactly one `Stream` error, and one bad
//! payload spoils only its own position.
use vstd::prelude::*;

use crate::error::Error;
use crate::json::{json_err_text, json_wf, parse_json};

verus! {

/// The mathematical content of an [`SseEvent`].
pub enum SseEventView {
    Open,
    Message(Seq<char>),
    Failed(Seq<char>),
}

/// One raw event of a live session: the connection opened, a message
/// arrived with its `data:` payload, or the source itself failed.
#[derive(Debug, Clone, PartialEq)]
pub enum SseEvent {
    Open,
    Message(String),
    Failed(String),
}

impl View for SseEvent {
    type V = SseEventView;

    open spec fn view(&self) -> SseEventView {
        match self {
            SseEvent::Open => SseEventView::Open,
            SseEvent::Message(d) => SseEventView::Message(d@),
            SseEvent::Failed(m) => SseEventView::Failed(m@),
        }
    }
}

/// The mathematical content of one entry handed to the consumer.
pub enum EntryView {
    /// A payload that is well-formed JSON, forwarded as it arrived.
    Item(Seq<char>),
    /// A payload that is not JSON: the decode error's message.
    BadItem(Seq<char>),
    /// The source failed: the failure's message.
    Broken(Seq<char>),
}

/// The entry a consumer sees for one `Result` item.
pub open spec fn entry_view(e: Result<String, Error>) -> EntryView {
    match e {
        Ok(s) => EntryView::Item(s@),
        Err(Error::Json(m)) => EntryView::BadItem(m@),
        Err(Error::Stream(m)) => EntryView::Broken(m@),
        Err(e) => EntryView::Broken(crate::error::error_message_spec(e)),
    }
}

/// The entry one message payload decodes to: the payload itself where it
/// is JSON, else the decode error.
pub open spec fn entry_of(d: Seq<char>) -> EntryView {
    if json_wf(d) {
        EntryView::Item(d)
    } else {
        EntryView::BadItem(json_err_text(d))
    }
}

/// What the event loop does with one event.
#[derive(Debug, PartialEq)]
pub enum DecodeStep {
    /// Nothing to forward; keep reading.
    Skip,
    /// Forward this entry and keep reading.
    Emit(Result<String, Error>),
    /// Forward this entry, then close the source.
    EmitStop(Result<String, Error>),
    /// Close the source without forwarding anything.
    Stop,
}

/// Decides what one raw event means: an open notification is ignored, a
/// source failure is forwarded as a `Stream` error and ends the session,
/// the sentinel payload ends the session silently, and any other payload
/// is forwarded — as itself where it is JSON, else as a `Json` error
/// that does not end the session.
pub open spec fn decode_step_spec(ev: SseEventView, sentinel: Seq<char>, r: DecodeStep) -> bool {
    match ev {
        SseEventView::Open => r == DecodeStep::Skip,
        SseEventView::Failed(m) => {
            &&& r matches DecodeStep::EmitStop(e)
            &&& e matches Err(err)
            &&& err matches Error::Stream(t)
            &&& t@ == m
        },
        SseEventView::Message(d) => if d == sentinel {
            r == DecodeStep::Stop
        } else {
            &&& r matches DecodeStep::Emit(e)
            &&& entry_view(e) == entry_of(d)
        },
    }
}

pub fn decode_step(event: &SseEvent, sentinel: &str) -> (r: DecodeStep)
    ensures
        decode_step_spec(event@, sentinel@, r),
{
    match event {
        SseEvent::Open => DecodeStep::Skip,
        SseEvent::Failed(m) => DecodeStep::EmitStop(Err(Error::Stream(m.clone()))),
        SseEvent::Message(d) => {
            let sent = sentinel.to_owned();
            if *d == sent {
                DecodeStep::Stop
            } else {
                match parse_json(d.as_str()) {
                    Ok(_) => DecodeStep::Emit(Ok(d.clone())),
                    Err(m) => DecodeStep::Emit(Err(Error::Json(m))),
                }
            }
        },
    }
}

/// The entries a whole session yields: events in arrival order, open
/// notifications skipped, until the sentinel (silently) or a source
/// failure (with one final `Stream` error) ends it.
pub open spec fn decode_seq(events: Seq<SseEventView>, sentinel: Seq<char>) -> Seq<EntryView>
    decreases events.len(),
{
    if events.len() == 0 {
        Seq::empty()
    } else {
        match events.first() {
            SseEventView::Open => decode_seq(events.drop_first(), sentinel),
            SseEventView::Failed(m) => seq![EntryView::Broken(m)],
            SseEventView::Message(d) => if d == sentinel {
                Seq::empty()
            } else {
                seq![entry_of(d)] + decode_seq(events.drop_first(), sentinel)
            },
        }
    }
}

/// Runs [`decode_step`] over a recorded session and gathers what the
/// consumer would see, exactly [`decode_seq`] of the events.
pub fn decode_all(events: &Vec<SseEvent>, sentinel: &str) -> (r: Vec<Result<String, Error>>)
    ensures
        Seq::new(r@.len(), |i: int| entry_view(r@[i])) == decode_seq(
            Seq::new(events@.len(), |i: int| events@[i]@),
            sentinel@,
        ),
{
    let ghost evs = Seq::new(events@.len(), |i: int| events@[i]@);
    let mut out: Vec<Result<String, Error>> = Vec::new();
    let mut i: usize = 0;
    let mut stopped = false;
    proof {
        assert(evs.subrange(0, evs.len() as int) =~= evs);
        assert(Seq::new(out@.len(), |k: int| entry_view(out@[k])) =~= Seq::<EntryView>::empty());
        assert(Seq::<EntryView>::empty() + decode_seq(evs, sentinel@) =~= decode_seq(
            evs,
            sentinel@,
        ));
    }
    while i < events.len() && !stopped
        invariant
            i <= events@.len(),
            evs == Seq::new(events@.len(), |k: int| events@[k]@),
            !stopped ==> Seq::new(out@.len(), |k: int| entry_view(out@[k])) + decode_seq(
                evs.subrange(i as int, evs.len() as int),
                sentinel@,
            ) == decode_seq(evs, sentinel@),
            stopped ==> Seq::new(out@.len(), |k: int| entry_view(out@[k])) == decode_seq(
                evs,
                sentinel@,
            ),
        decreases events@.len() - i,
    {
        let ghost rest = evs.subrange(i as int, evs.len() as int);
        let ghost rest_next = evs.subrange(i + 1, evs.len() as int);
        proof {
            assert(rest.first() == evs[i as int]);
            assert(rest.drop_first() =~= rest_next);
        }
        let ghost out_before = Seq::new(out@.len(), |k: int| entry_view(out@[k]));
        match decode_step(&events[i], sentinel) {
            DecodeStep::Skip => {
                proof {
                    assert(decode_seq(rest, sentinel@) == decode_seq(rest_next, sentinel@));
                }
            },
            DecodeStep::Emit(e) => {
                proof {
                    assert(decode_seq(rest, sentinel@) =~= seq![entry_view(e)] + decode_seq(
                        rest_next,
                        sentinel@,
                    ));
                }
                out.push(e);
                proof {
                    assert(Seq::new(out@.len(), |k: int| entry_view(out@[k])) =~= out_before.push(
                        entry_view(out@[out@.len() - 1]),
                    ));
                    assert(out_before.push(entry_view(out@[out@.len() - 1])) + decode_seq(
                        rest_next,
                        sentinel@,
                    ) =~= out_before + decode_seq(rest, sentinel@));
                }
            },
            DecodeStep::EmitStop(e) => {
                proof {
                    assert(decode_seq(rest, sentinel@) =~= seq![entry_view(e)]);
                }
                out.push(e);
                stopped = true;
                proof {
                    assert(Seq::new(out@.len(), |k: int| entry_view(out@[k])) =~= out_before.push(
                        entry_view(out@[out@.len() - 1]),
                    ));
                    assert(out_before.push(entry_view(out@[out@.len() - 1])) =~= out_before
                        + decode_seq(rest, sentinel@));
                    assert(out_before + decode_seq(rest, sentinel@) =~= decode_seq(evs, sentinel@));
                }
            },
            DecodeStep::Stop => {
                stopped = true;
                proof {
                    assert(decode_seq(rest, sentinel@) =~= Seq::<EntryView>::empty());
                    assert(out_before + decode_seq(rest, sentinel@) =~= out_before);
                }
            },
        }
        i = i + 1;
    }
    proof {
        if !stopped {
            assert(evs.subrange(i as int, evs.len() as int) =~= Seq::<SseEventView>::empty());
            assert(Seq::new(out@.len(), |k: int| entry_view(out@[k])) + decode_seq(
                evs.subrange(i as int, evs.len() as int),
                sentinel@,
            ) =~= Seq::new(out@.len(), |k: int| entry_view(out@[k])));
        }
    }
    out
}

/// Whether an event ends the session: a source failure, or the sentinel
/// payload.
pub open spec fn is_terminator(ev: SseEventView, sentinel: Seq<char>) -> bool {
    match ev {
        SseEventView::Failed(_) => true,
        SseEventView::Message(d) => d == sentinel,
        SseEventView::Open => false,
    }
}

/// Whether no event of the session ends it.
pub open spec fn clean(events: Seq<SseEventView>, sentinel: Seq<char>) -> bool {
    forall|i: int| 0 <= i < events.len() ==> !is_terminator(#[trigger] events[i], sentinel)
}

/// The entries of a terminator-free event list: one per message, in
/// order.
pub open spec fn entries_of(events: Seq<SseEventView>, sentinel: Seq<char>) -> Seq<EntryView>
    decreases events.len(),
{
    if events.len() == 0 {
        Seq::empty()
    } else {
        match events.first() {
            SseEventView::Message(d) => seq![entry_of(d)] + entries_of(
                events.drop_first(),
                sentinel,
            ),
            _ => entries_of(events.drop_first(), sentinel),
        }
    }
}

/// The message payloads of an event list, in order.
pub open spec fn payloads_of(events: Seq<SseEventView>) -> Seq<Seq<char>>
    decreases events.len(),
{
    if events.len() == 0 {
        Seq::empty()
    } else {
        match events.first() {
            SseEventView::Message(d) => seq![d] + payloads_of(events.drop_first()),
            _ => payloads_of(events.drop_first()),
        }
    }
}

/// A terminator-free prefix decodes to its entries, whatever follows:
/// decoding distributes over the splice.
pub proof fn lemma_decode_append(
    prefix: Seq<SseEventView>,
    rest: Seq<SseEventView>,
    sentinel: Seq<char>,
)
    requires
        clean(prefix, sentinel),
    ensures
        decode_seq(prefix + rest, sentinel) == entries_of(prefix, sentinel) + decode_seq(
            rest,
            sentinel,
        ),
    decreases prefix.len(),
{
    if prefix.len() == 0 {
        assert(prefix + rest =~= rest);
        assert(entries_of(prefix, sentinel) + decode_seq(rest, sentinel) =~= decode_seq(
            rest,
            sentinel,
        ));
    } else {
        let whole = prefix + rest;
        assert(whole.first() == prefix.first());
        assert(whole.drop_first() =~= prefix.drop_first() + rest);
        assert(!is_terminator(prefix[0], sentinel));
        assert(forall|i: int| 0 <= i < prefix.drop_first().len() ==> !is_terminator(
            #[trigger] prefix.drop_first()[i],
            sentinel,
        ));
        lemma_decode_append(prefix.drop_first(), rest, sentinel);
        match prefix.first() {
            SseEventView::Open => {},
            SseEventView::Message(d) => {
                assert(d != sentinel);
                assert(decode_seq(whole, sentinel) =~= entries_of(prefix, sentinel) + decode_seq(
                    rest,
                    sentinel,
                ));
            },
            SseEventView::Failed(_) => {},
        }
    }
}

/// A terminator-free session has no `Stream` error among its entries.
pub proof fn lemma_entries_not_broken(events: Seq<SseEventView>, sentinel: Seq<char>)
    requires
        clean(events, sentinel),
    ensures
        forall|i: int| 0 <= i < entries_of(events, sentinel).len() ==> !(
        #[trigger] entries_of(events, sentinel)[i] matches EntryView::Broken(_)),
    decreases events.len(),
{
    if events.len() > 0 {
        assert(forall|i: int| 0 <= i < events.drop_first().len() ==> !is_terminator(
            #[trigger] events.drop_first()[i],
            sentinel,
        ));
        lemma_entries_not_broken(events.drop_first(), sentinel);
    }
}

/// Receiving the sentinel ends the session: everything before it is
/// delivered, nothing after it is, and the sentinel itself yields no
/// entry and no error.
pub proof fn lemma_sentinel_terminates(
    prefix: Seq<SseEventView>,
    suffix: Seq<SseEventView>,
    sentinel: Seq<char>,
)
    requires
        clean(prefix, sentinel),
    ensures
        decode_seq(prefix + seq![SseEventView::Message(sentinel)] + suffix, sentinel) == entries_of(
            prefix,
            sentinel,
        ),
        forall|i: int| 0 <= i < entries_of(prefix, sentinel).len() ==> !(
        #[trigger] entries_of(prefix, sentinel)[i] matches EntryView::Broken(_)),
{
    let rest = seq![SseEventView::Message(sentinel)] + suffix;
    assert(prefix + seq![SseEventView::Message(sentinel)] + suffix =~= prefix + rest);
    assert(rest.first() == SseEventView::Message(sentinel));
    assert(decode_seq(rest, sentinel) =~= Seq::<EntryView>::empty());
    lemma_decode_append(prefix, rest, sentinel);
    assert(entries_of(prefix, sentinel) + Seq::<EntryView>::empty() =~= entries_of(
        prefix,
        sentinel,
    ));
    lemma_entries_not_broken(prefix, sentinel);
}

/// A connection failure mid-stream yields exactly one `Stream` error,
/// as the last entry: everything before it is delivered, nothing after.
pub proof fn lemma_failure_terminates(
    prefix: Seq<SseEventView>,
    message: Seq<char>,
    suffix: Seq<SseEventView>,
    sentinel: Seq<char>,
)
    requires
        clean(prefix, sentinel),
    ensures
        decode_seq(prefix + seq![SseEventView::Failed(message)] + suffix, sentinel) == entries_of(
            prefix,
            sentinel,
        ).push(EntryView::Broken(message)),
        forall|i: int| 0 <= i < entries_of(prefix, sentinel).len() ==> !(
        #[trigger] entries_of(prefix, sentinel)[i] matches EntryView::Broken(_)),
{
    let rest = seq![SseEventView::Failed(message)] + suffix;
    assert(prefix + seq![SseEventView::Failed(message)] + suffix =~= prefix + rest);
    assert(rest.first() == SseEventView::Failed(message));
    assert(decode_seq(rest, sentinel) =~= seq![EntryView::Broken(message)]);
    lemma_decode_append(prefix, rest, sentinel);
    assert(entries_of(prefix, sentinel) + seq![EntryView::Broken(message)] =~= entries_of(
        prefix,
        sentinel,
    ).push(EntryView::Broken(message)));
    lemma_entries_not_broken(prefix, sentinel);
}

/// In a terminator-free session each payload decodes on its own:
/// entry `i` is exactly the decode of payload `i`, so one malformed
/// payload yields one `Json` error at its position and no other entry is
/// affected.
pub proof fn lemma_entries_pointwise(events: Seq<SseEventView>, sentinel: Seq<char>)
    ensures
        entries_of(events, sentinel).len() == payloads_of(events).len(),
        forall|i: int| 0 <= i < payloads_of(events).len() ==> entries_of(events, sentinel)[i]
            == entry_of(#[trigger] payloads_of(events)[i]),
    decreases events.len(),
{
    if events.len() > 0 {
        lemma_entries_pointwise(events.drop_first(), sentinel);
    }
}

} // verus!
