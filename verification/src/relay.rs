//! The relay session: the state machine at the heart of the terminal.
//!
//! A session bridges two byte streams — serial output to the screen, keyboard
//! chunks to the serial port — until the user types the exit byte or the
//! transport fails. The caller owns the waiting: it waits concurrently on the
//! serial reader and the keyboard queue, turns whatever became ready into an
//! [`Event`], hands it to [`Session::handle`], and performs the returned
//! [`Action`]. Every decision — what to display, what to forward, when and how
//! the session ends — is made here, so the session is a function of its two
//! input streams alone.

use vstd::prelude::*;
use vstd::utf8::{decode_utf8, valid_utf8};

use crate::decode::{decode_lossy, lossy_utf8_of};
use crate::keyboard::{chunk_has_exit, contains_exit};

verus! {

/// One thing the caller's combined wait produced.
pub enum Event {
    /// The serial reader filled a buffer; an empty buffer is a closed stream.
    SerialData(Vec<u8>),
    /// The serial reader reported an error.
    SerialError,
    /// A chunk was dequeued from the keyboard queue.
    Keyboard(Vec<u8>),
    /// Writing a forwarded chunk to the serial port failed.
    SerialWriteFailed,
}

/// The mathematical value of an [`Event`].
pub enum EventModel {
    SerialData(Seq<u8>),
    SerialError,
    Keyboard(Seq<u8>),
    SerialWriteFailed,
}

impl View for Event {
    type V = EventModel;

    open spec fn view(&self) -> EventModel {
        match self {
            Event::SerialData(b) => EventModel::SerialData(b@),
            Event::SerialError => EventModel::SerialError,
            Event::Keyboard(b) => EventModel::Keyboard(b@),
            Event::SerialWriteFailed => EventModel::SerialWriteFailed,
        }
    }
}

/// How a session ended.
#[derive(Clone, Copy, Debug, PartialEq, Eq, Structural)]
pub enum Outcome {
    /// The user typed the exit byte.
    CleanExit,
    /// The serial transport failed, or its stream closed.
    Failed,
}

/// Whether a session is still relaying or has ended.
#[derive(Clone, Copy, Debug, PartialEq, Eq, Structural)]
pub enum Status {
    Running,
    Done(Outcome),
}

/// What the caller must do after handing an event to the session.
pub enum Action {
    /// Write this text to the screen and flush it.
    Display(String),
    /// Write all of these bytes to the serial port.
    Forward(Vec<u8>),
    /// Stop waiting: the session is over, with this outcome.
    Stop(Outcome),
}

/// The mathematical value of an [`Action`].
pub enum ActionModel {
    Display(Seq<char>),
    Forward(Seq<u8>),
    Stop(Outcome),
}

impl View for Action {
    type V = ActionModel;

    open spec fn view(&self) -> ActionModel {
        match self {
            Action::Display(t) => ActionModel::Display(t@),
            Action::Forward(b) => ActionModel::Forward(b@),
            Action::Stop(o) => ActionModel::Stop(*o),
        }
    }
}

/// The abstract state of a session: its status, every byte it has forwarded
/// to the serial port, and every character it has written to the screen, each
/// in order.
#[verifier::ext_equal]
pub struct Model {
    pub status: Status,
    pub forwarded: Seq<u8>,
    pub displayed: Seq<char>,
}

/// The state of a session that has just been created.
pub open spec fn init_model() -> Model {
    Model { status: Status::Running, forwarded: Seq::empty(), displayed: Seq::empty() }
}

/// The action a running session takes on an event: serial bytes are displayed
/// as their lossy UTF-8 decoding; an empty serial read (a closed stream) and a
/// serial error both end the session as a failure; a keyboard chunk holding
/// the exit byte ends it cleanly, forwarding nothing; any other chunk is
/// forwarded whole; a failed forward ends the session as a failure.
pub open spec fn step_action(e: EventModel) -> ActionModel {
    match e {
        EventModel::SerialData(b) => if b.len() == 0 {
            ActionModel::Stop(Outcome::Failed)
        } else {
            ActionModel::Display(lossy_utf8_of(b))
        },
        EventModel::SerialError => ActionModel::Stop(Outcome::Failed),
        EventModel::Keyboard(b) => if contains_exit(b) {
            ActionModel::Stop(Outcome::CleanExit)
        } else {
            ActionModel::Forward(b)
        },
        EventModel::SerialWriteFailed => ActionModel::Stop(Outcome::Failed),
    }
}

/// How one event moves the session's abstract state: displayed text and
/// forwarded bytes are appended in order, and a stop records the outcome.
pub open spec fn step_model(m: Model, e: EventModel) -> Model {
    match step_action(e) {
        ActionModel::Display(t) => Model { displayed: m.displayed + t, ..m },
        ActionModel::Forward(b) => Model { forwarded: m.forwarded + b, ..m },
        ActionModel::Stop(o) => Model { status: Status::Done(o), ..m },
    }
}

/// A live relay session. Its view is the [`Model`] it has reached by handling
/// events one at a time, starting from [`init_model`].
pub struct Session {
    status: Status,
    forwarded: Ghost<Seq<u8>>,
    displayed: Ghost<Seq<char>>,
}

impl View for Session {
    type V = Model;

    closed spec fn view(&self) -> Model {
        Model { status: self.status, forwarded: self.forwarded@, displayed: self.displayed@ }
    }
}

impl Session {
    /// Creates a session that has seen no events yet.
    pub fn new() -> (s: Session)
        ensures
            s@ == init_model(),
    {
        Session {
            status: Status::Running,
            forwarded: Ghost(Seq::empty()),
            displayed: Ghost(Seq::empty()),
        }
    }

    /// True while the session is still relaying.
    pub fn is_running(&self) -> (r: bool)
        ensures
            r == (self@.status == Status::Running),
    {
        match self.status {
            Status::Running => true,
            Status::Done(_) => false,
        }
    }

    /// The outcome of a session that has ended, and `None` while it runs.
    pub fn outcome(&self) -> (o: Option<Outcome>)
        ensures
            match self@.status {
                Status::Running => o == None::<Outcome>,
                Status::Done(oc) => o == Some(oc),
            },
    {
        match self.status {
            Status::Running => None,
            Status::Done(oc) => Some(oc),
        }
    }

    /// Handles one event of a running session: updates the state as
    /// [`step_model`] says and returns the action [`step_action`] names.
    /// For serial bytes that are valid UTF-8 the displayed text is exactly
    /// their decoding, so valid input reaches the screen verbatim.
    pub fn handle(&mut self, e: Event) -> (a: Action)
        requires
            old(self)@.status == Status::Running,
        ensures
            final(self)@ == step_model(old(self)@, e@),
            a@ == step_action(e@),
            (match e@ {
                EventModel::SerialData(b) => b.len() > 0 && valid_utf8(b)
                    ==> final(self)@.displayed == old(self)@.displayed + decode_utf8(b),
                _ => true,
            }),
    {
        match e {
            Event::SerialData(b) => {
                if b.len() == 0 {
                    self.status = Status::Done(Outcome::Failed);
                    Action::Stop(Outcome::Failed)
                } else {
                    let text = decode_lossy(&b);
                    self.displayed = Ghost(self.displayed@ + text@);
                    Action::Display(text)
                }
            },
            Event::SerialError => {
                self.status = Status::Done(Outcome::Failed);
                Action::Stop(Outcome::Failed)
            },
            Event::Keyboard(b) => {
                if chunk_has_exit(&b) {
                    self.status = Status::Done(Outcome::CleanExit);
                    Action::Stop(Outcome::CleanExit)
                } else {
                    self.forwarded = Ghost(self.forwarded@ + b@);
                    Action::Forward(b)
                }
            },
            Event::SerialWriteFailed => {
                self.status = Status::Done(Outcome::Failed);
                Action::Stop(Outcome::Failed)
            },
        }
    }
}

/// True of an event that cannot end a session: a nonempty serial read or a
/// keyboard chunk free of the exit byte.
pub open spec fn is_benign(e: EventModel) -> bool {
    match e {
        EventModel::SerialData(b) => b.len() > 0,
        EventModel::SerialError => false,
        EventModel::Keyboard(b) => !contains_exit(b),
        EventModel::SerialWriteFailed => false,
    }
}

/// The state a fresh session reaches when its caller hands it these events in
/// order: the session is a pure function of its two input streams. Events
/// after a stop are not handled, as the caller stops polling at the first
/// stop action.
pub open spec fn run_model(es: Seq<EventModel>) -> Model
    decreases es.len(),
{
    if es.len() == 0 {
        init_model()
    } else {
        let prev = run_model(es.drop_last());
        if prev.status == Status::Running {
            step_model(prev, es.last())
        } else {
            prev
        }
    }
}

/// A session ends only on an exit chunk, a serial failure or a failed write:
/// over any stream of benign events it keeps running.
pub proof fn lemma_benign_run_keeps_running(es: Seq<EventModel>)
    requires
        forall|i: int| 0 <= i < es.len() ==> is_benign(#[trigger] es[i]),
    ensures
        run_model(es).status == Status::Running,
    decreases es.len(),
{
    if es.len() > 0 {
        lemma_benign_run_keeps_running(es.drop_last());
    }
}

/// All keyboard bytes in a stream of events, in the order typed.
pub open spec fn keyboard_bytes(es: Seq<EventModel>) -> Seq<u8>
    decreases es.len(),
{
    if es.len() == 0 {
        Seq::empty()
    } else {
        keyboard_bytes(es.drop_last()) + (match es.last() {
            EventModel::Keyboard(b) => b,
            _ => Seq::empty(),
        })
    }
}

/// The text of each serial read in a stream of events, decoded read by read
/// and joined in the order received. The decoding is per read on purpose: a
/// read may end inside a multi-byte character, and what it got is displayed
/// at once, not held back.
pub open spec fn serial_text(es: Seq<EventModel>) -> Seq<char>
    decreases es.len(),
{
    if es.len() == 0 {
        Seq::empty()
    } else {
        serial_text(es.drop_last()) + (match es.last() {
            EventModel::SerialData(b) => if b.len() > 0 {
                lossy_utf8_of(b)
            } else {
                Seq::empty()
            },
            _ => Seq::empty(),
        })
    }
}

/// Over any stream of benign events, the serial writer receives exactly the
/// keyboard bytes, in the order typed, and the screen shows exactly the
/// serial reads' decodings, in the order received.
pub proof fn lemma_benign_run_relays_everything(es: Seq<EventModel>)
    requires
        forall|i: int| 0 <= i < es.len() ==> is_benign(#[trigger] es[i]),
    ensures
        run_model(es).forwarded == keyboard_bytes(es),
        run_model(es).displayed == serial_text(es),
    decreases es.len(),
{
    if es.len() == 0 {
        assert(run_model(es).forwarded =~= keyboard_bytes(es));
        assert(run_model(es).displayed =~= serial_text(es));
    } else {
        lemma_benign_run_relays_everything(es.drop_last());
        lemma_benign_run_keeps_running(es.drop_last());
        assert(run_model(es).forwarded =~= keyboard_bytes(es));
        assert(run_model(es).displayed =~= serial_text(es));
    }
}

/// A keyboard chunk free of the exit byte is forwarded to the serial port
/// whole and in its original order, and the session keeps running.
pub proof fn lemma_chunk_without_exit_forwarded(m: Model, b: Seq<u8>)
    requires
        m.status == Status::Running,
        !contains_exit(b),
    ensures
        step_action(EventModel::Keyboard(b)) == ActionModel::Forward(b),
        step_model(m, EventModel::Keyboard(b)).status == Status::Running,
        step_model(m, EventModel::Keyboard(b)).forwarded == m.forwarded + b,
        step_model(m, EventModel::Keyboard(b)).displayed == m.displayed,
{
}

/// A keyboard chunk holding the exit byte anywhere ends the session cleanly,
/// and none of the chunk's bytes is forwarded to the serial port.
pub proof fn lemma_chunk_with_exit_stops(m: Model, b: Seq<u8>)
    requires
        contains_exit(b),
    ensures
        step_action(EventModel::Keyboard(b)) == ActionModel::Stop(Outcome::CleanExit),
        step_model(m, EventModel::Keyboard(b)).status == Status::Done(Outcome::CleanExit),
        step_model(m, EventModel::Keyboard(b)).forwarded == m.forwarded,
{
}

/// Bytes received from the serial transport are displayed as their lossy
/// UTF-8 decoding, appended in the order received, and the session keeps
/// running.
pub proof fn lemma_serial_bytes_displayed(m: Model, b: Seq<u8>)
    requires
        m.status == Status::Running,
        b.len() > 0,
    ensures
        step_action(EventModel::SerialData(b)) == ActionModel::Display(lossy_utf8_of(b)),
        step_model(m, EventModel::SerialData(b)).status == Status::Running,
        step_model(m, EventModel::SerialData(b)).displayed == m.displayed + lossy_utf8_of(b),
        step_model(m, EventModel::SerialData(b)).forwarded == m.forwarded,
{
}

/// The display of valid UTF-8 serial bytes is a byte-for-byte round trip:
/// encoding the characters that [`Session::handle`] displays for them yields
/// exactly the bytes that were received.
pub proof fn lemma_valid_utf8_round_trip(b: Seq<u8>)
    requires
        valid_utf8(b),
    ensures
        vstd::utf8::encode_utf8(decode_utf8(b)) == b,
{
    vstd::utf8::decode_utf8_encode_utf8(b);
}

/// A serial read error ends the session as a failure, and so does a closed
/// serial stream (an empty read): the two are routed through the same branch.
pub proof fn lemma_serial_failure_stops(m: Model, b: Seq<u8>)
    requires
        b.len() == 0,
    ensures
        step_action(EventModel::SerialError) == ActionModel::Stop(Outcome::Failed),
        step_model(m, EventModel::SerialError).status == Status::Done(Outcome::Failed),
        step_action(EventModel::SerialData(b)) == ActionModel::Stop(Outcome::Failed),
        step_model(m, EventModel::SerialData(b)).status == Status::Done(Outcome::Failed),
        step_model(m, EventModel::SerialData(b)).displayed == m.displayed,
        step_model(m, EventModel::SerialData(b)).forwarded == m.forwarded,
{
}

} // verus!
