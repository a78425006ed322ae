//! The decisions of a session's output streaming task. The task itself
//! (reading the PTY, sleeping, emitting to the UI) runs outside the library:
//! it turns what happened into a `StreamEvent` and carries out the
//! `StreamAction` it gets back.
use vstd::prelude::*;

verus! {

/// Event emitted when terminal produces output
pub struct TerminalOutputEvent {
    pub id: String,
    pub data: String,
}

/// Event emitted when terminal exits
pub struct TerminalExitEvent {
    pub id: String,
    pub exit_code: Option<i32>,
}

/// Bytes decoded as UTF-8, each invalid sequence replaced by U+FFFD.
pub uninterp spec fn lossy_utf8(b: Seq<u8>) -> Seq<char>;

/// Relies on `String::from_utf8_lossy`: the bytes decoded, invalid
/// sequences replaced; no bytes give no characters.
#[verifier::external_body]
pub(crate) fn decode_lossy(b: &[u8]) -> (r: String)
    ensures
        r@ == lossy_utf8(b@),
        b@.len() == 0 ==> r@.len() == 0,
{
    String::from_utf8_lossy(b).to_string()
}

/// What the streaming task observed since its last step.
pub enum StreamEvent {
    /// The stop signal was received.
    StopSignal,
    /// A read returned these bytes; none means end of file.
    Data(Vec<u8>),
    /// A read would have blocked.
    WouldBlock,
    /// A read failed for another reason.
    ReadFailed,
}

/// Why the streaming loop ended.
#[derive(PartialEq, Eq, Structural, Clone, Copy, Debug)]
pub enum StreamEnd {
    /// Stopped on request: the session was destroyed, no exit is reported.
    Stopped,
    /// The PTY reached end of file or failed: the shell is gone.
    Closed,
}

/// What the streaming task does next.
pub enum StreamAction {
    /// Emit this output event, then read again.
    Emit(TerminalOutputEvent),
    /// Sleep briefly, then read again.
    Pause,
    /// Leave the loop.
    Finish(StreamEnd),
}

/// Whether `end` calls for an exit event and the session's auto-cleanup.
pub open spec fn reports_exit(end: StreamEnd) -> bool {
    end == StreamEnd::Closed
}

/// The end that `e` brings, if it ends the loop.
pub open spec fn end_of(e: StreamEvent) -> Option<StreamEnd> {
    match e {
        StreamEvent::StopSignal => Some(StreamEnd::Stopped),
        StreamEvent::Data(b) => if b@.len() == 0 {
            Some(StreamEnd::Closed)
        } else {
            None
        },
        StreamEvent::WouldBlock => None,
        StreamEvent::ReadFailed => Some(StreamEnd::Closed),
    }
}

/// Decides the next step of the stream of session `id` on `event`.
pub fn next_action(id: &String, event: StreamEvent) -> (r: StreamAction)
    ensures
        end_of(event) matches Some(end) ==> r == StreamAction::Finish(end),
        event matches StreamEvent::WouldBlock ==> r is Pause,
        event is Data && event->Data_0@.len() > 0 ==> (r matches StreamAction::Emit(ev) && ev.id@
            == id@ && ev.data@ == lossy_utf8(event->Data_0@)),
{
    match event {
        StreamEvent::StopSignal => StreamAction::Finish(StreamEnd::Stopped),
        StreamEvent::Data(bytes) => {
            if bytes.len() == 0 {
                StreamAction::Finish(StreamEnd::Closed)
            } else {
                let data = decode_lossy(bytes.as_slice());
                StreamAction::Emit(TerminalOutputEvent { id: id.clone(), data })
            }
        },
        StreamEvent::WouldBlock => StreamAction::Pause,
        StreamEvent::ReadFailed => StreamAction::Finish(StreamEnd::Closed),
    }
}

/// The exit event of session `id`.
pub fn exit_event(id: &String, exit_code: Option<i32>) -> (r: TerminalExitEvent)
    ensures
        r.id@ == id@,
        r.exit_code == exit_code,
{
    TerminalExitEvent { id: id.clone(), exit_code }
}

/// What reaches the UI from a stream, in order.
#[derive(PartialEq, Eq, Structural, Clone, Copy, Debug)]
pub enum Emission {
    Output,
    Exit,
}

/// What a stream emits when it observes `events` in turn: an output for
/// each non-empty read, and, when the loop ends because the PTY closed,
/// one exit. Events after the one that ends the loop are never observed.
pub open spec fn emissions(events: Seq<StreamEvent>) -> Seq<Emission>
    decreases events.len(),
{
    if events.len() == 0 {
        Seq::empty()
    } else {
        match end_of(events[0]) {
            Some(end) => if reports_exit(end) {
                seq![Emission::Exit]
            } else {
                Seq::empty()
            },
            None => match events[0] {
                StreamEvent::Data(_) => seq![Emission::Output] + emissions(events.drop_first()),
                _ => emissions(events.drop_first()),
            },
        }
    }
}

/// The number of non-empty reads among `events`.
pub open spec fn data_count(events: Seq<StreamEvent>) -> nat
    decreases events.len(),
{
    if events.len() == 0 {
        0
    } else {
        (if events[0] is Data {
            1nat
        } else {
            0nat
        }) + data_count(events.drop_first())
    }
}

/// A run of the loop: no event but the last one ends it, and the last one does.
pub open spec fn is_run(events: Seq<StreamEvent>) -> bool {
    &&& events.len() > 0
    &&& forall|i: int| 0 <= i < events.len() - 1 ==> (#[trigger] end_of(events[i])) is None
    &&& end_of(events.last()) is Some
}

/// A run that ends because the shell went away emits its outputs, one per
/// non-empty read and in order, and then exactly one exit.
pub proof fn lemma_closed_run_ends_with_one_exit(events: Seq<StreamEvent>)
    requires
        is_run(events),
        end_of(events.last()) == Some(StreamEnd::Closed),
    ensures
        emissions(events) == Seq::new(data_count(events.drop_last()), |i: int| Emission::Output).push(
            Emission::Exit,
        ),
    decreases events.len(),
{
    if events.len() == 1 {
        assert(events.drop_last() =~= Seq::<StreamEvent>::empty());
        assert(emissions(events) =~= seq![Emission::Exit]);
        assert(Seq::new(0, |i: int| Emission::Output).push(Emission::Exit) =~= seq![Emission::Exit]);
    } else {
        let rest = events.drop_first();
        assert(end_of(events[0]) is None);
        assert forall|i: int| 0 <= i < rest.len() - 1 implies (#[trigger] end_of(rest[i])) is None by {
            assert(rest[i] == events[i + 1]);
        }
        assert(rest.last() == events.last());
        lemma_closed_run_ends_with_one_exit(rest);
        assert(events.drop_last().drop_first() =~= rest.drop_last());
        assert(events.drop_last()[0] == events[0]);
        let n = data_count(rest.drop_last());
        let tail = Seq::new(n, |i: int| Emission::Output).push(Emission::Exit);
        if events[0] is Data {
            assert(seq![Emission::Output] + tail =~= Seq::new(n + 1, |i: int| Emission::Output).push(
                Emission::Exit,
            ));
        }
    }
}

/// A run that ends on the stop signal emits no exit at all.
pub proof fn lemma_stopped_run_emits_no_exit(events: Seq<StreamEvent>)
    requires
        is_run(events),
        end_of(events.last()) == Some(StreamEnd::Stopped),
    ensures
        !emissions(events).contains(Emission::Exit),
    decreases events.len(),
{
    if events.len() == 1 {
        assert(emissions(events) =~= Seq::<Emission>::empty());
    } else {
        let rest = events.drop_first();
        assert(end_of(events[0]) is None);
        assert forall|i: int| 0 <= i < rest.len() - 1 implies (#[trigger] end_of(rest[i])) is None by {
            assert(rest[i] == events[i + 1]);
        }
        assert(rest.last() == events.last());
        lemma_stopped_run_emits_no_exit(rest);
        if events[0] is Data {
            let e = emissions(events);
            assert(e =~= seq![Emission::Output] + emissions(rest));
            assert forall|i: int| 0 <= i < e.len() implies e[i] != Emission::Exit by {
                if i > 0 {
                    assert(e[i] == emissions(rest)[i - 1]);
                }
            }
        }
    }
}

} // verus!
