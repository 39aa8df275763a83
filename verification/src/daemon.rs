//! The daemon's decisions: what to do with each thing that arrives on the
//! control channel, and what duty to command at each tick.
//!
//! The program around the library owns the socket, the sensors, the
//! backend and the clock. It does what [`Daemon::advance`] asks for and
//! tells it the outcome: each tick it receives until nothing is pending,
//! building a curve when a request asks for one, then reads the sensors,
//! gives the backend the duty decided, and sleeps.

use vstd::prelude::*;
use vstd::string::StringSliceAdditionalSpecFns;
use vstd::std_specs::convert::FromSpecImpl;
use crate::aggregator::{empty_window, highest, slide, ExcessAggregator, WINDOW};
use crate::channel::{addressable, invalid_input, is_addressable, Received};
use crate::gamma::{
    evaluate_spec, is_usable_exponent, usable_exponent, valid_samples, GammaCurve, UNIT,
};
use crate::policy::{
    duty_for_excess, duty_spec, lemma_duty_saturates, speed_factor_for_excess,
    speed_factor_spec, ACTION_MARGIN, MIN_FAN, RANGE,
};
use crate::protocol::{decode_spec, DecodeError, Message};
use crate::backend;
use crate::sense::worst_excess;

verus! {

/// Time between two ticks, in milliseconds.
pub const INTERVAL_MS: u64 = 2_000;

/// Why a daemon could not be set up.
#[derive(Debug)]
pub enum Error {
    /// The control endpoint could not be bound.
    Io(std::io::Error),
}

impl From<std::io::Error> for Error {
    fn from(e: std::io::Error) -> (r: Error) {
        Error::Io(e)
    }
}

impl FromSpecImpl<std::io::Error> for Error {
    open spec fn obeys_from_spec() -> bool {
        true
    }

    open spec fn from_spec(e: std::io::Error) -> Error {
        Error::Io(e)
    }
}

/// What follows one attempt to receive.
#[derive(Debug, Clone, Copy, PartialEq, Eq, Structural)]
pub enum Step {
    /// A request to rebuild the curve with this exponent arrived: rebuild
    /// it, then receive again.
    Rebuild(u64),
    /// A request arrived whose exponent no curve can be built with: leave
    /// the curve as it is and receive again.
    Reject(Message),
    /// A datagram arrived that is no message: receive again.
    Malformed(DecodeError),
    /// Nothing is pending: the drain is over for this tick.
    Drained,
    /// Receiving failed: the drain is over for this tick.
    Failed,
}

impl Step {
    /// Whether the drain goes on after this step.
    pub open spec fn continues(self) -> bool {
        self is Rebuild || self is Reject || self is Malformed
    }

    /// Whether to receive again after this step.
    pub fn keeps_draining(&self) -> (b: bool)
        ensures
            b == self.continues(),
    {
        match self {
            Step::Rebuild(_) | Step::Reject(_) | Step::Malformed(_) => true,
            Step::Drained | Step::Failed => false,
        }
    }
}

/// The step that follows a message.
pub open spec fn step_for_message(m: Message) -> Step {
    match m {
        Message::SetGamma(bits) => if usable_exponent(bits) {
            Step::Rebuild(bits)
        } else {
            Step::Reject(m)
        },
    }
}

/// The step that follows an attempt to receive.
pub open spec fn step_spec(received: Received) -> Step {
    match received {
        Received::Datagram(bytes) => match decode_spec(bytes@) {
            Ok(m) => step_for_message(m),
            Err(e) => Step::Malformed(e),
        },
        Received::WouldBlock => Step::Drained,
        Received::Failed => Step::Failed,
    }
}

/// Where the daemon stands in its loop, by what it is waiting for.
#[derive(Debug, Clone, Copy, PartialEq, Eq, Structural)]
pub enum Phase {
    /// Between two ticks: waiting for the interval to pass.
    Idle,
    /// In a tick, draining the channel: waiting for an attempt to receive.
    Draining,
    /// In a tick, a request to rebuild in hand: waiting for the curve of
    /// this exponent.
    Rebuilding(u64),
    /// In a tick, the channel drained: waiting for the readings.
    Sampling,
    /// In a tick, this duty decided: waiting for the backend to take it.
    Commanding(u32),
    /// The backend or the sensors have failed: the daemon is over.
    Stopped,
}

/// What the daemon is told of: each is the outcome of the action that it
/// asked for last.
#[derive(Debug)]
pub enum Event {
    /// The interval has passed, or the daemon has just been started.
    Woke,
    /// One attempt to receive was made.
    Received(Received),
    /// The curve was built, or could not be.
    Rebuilt(Option<GammaCurve>),
    /// Every sensor was read; the excess of each, in thousandths of a
    /// degree.
    Sampled(Vec<i64>),
    /// The backend was given the duty.
    Commanded(Result<(), backend::Error>),
}

/// What the daemon asks to be done next.
#[derive(Debug, Clone, Copy, PartialEq, Eq, Structural)]
pub enum Action {
    /// Sleep this many milliseconds.
    Sleep(u64),
    /// Try once to receive a datagram, without waiting.
    Receive,
    /// Build the curve for this exponent.
    Rebuild(u64),
    /// Read every sensor.
    Sample,
    /// Give the backend this duty.
    Command(u32),
    /// End the process, releasing what it holds.
    Exit,
}

/// What there is to log about an event.
#[derive(Debug, Clone, Copy, PartialEq, Eq, Structural)]
pub enum Note {
    /// Nothing.
    Quiet,
    /// The curve of this exponent is now in force.
    Applied(u64),
    /// A request arrived whose exponent no curve can be built with; the
    /// curve stays.
    Rejected(Message),
    /// No curve came of this exponent; the curve stays.
    NoCurve(u64),
    /// A datagram arrived that is no message.
    Malformed(DecodeError),
    /// Receiving failed; the drain ended early.
    ReceiveFailed,
    /// There is no sensor to read.
    NoSensors,
    /// The backend did not take the duty.
    BackendFailed,
    /// The event answers no action that was asked for; nothing changed.
    OutOfTurn,
}

/// The daemon's answer to an event.
#[derive(Debug, Clone, Copy, PartialEq, Eq, Structural)]
pub struct Reaction {
    /// What to do next.
    pub action: Action,
    /// What to log.
    pub note: Note,
}

/// What the daemon's decisions depend on.
pub struct Model {
    /// The samples of the curve in force.
    pub curve: Seq<u32>,
    /// The smoothing window, oldest sample first.
    pub window: Seq<i64>,
    /// Where the daemon stands in its loop.
    pub phase: Phase,
}

/// The action whose outcome a phase waits for.
pub open spec fn awaited(phase: Phase) -> Action {
    match phase {
        Phase::Idle => Action::Sleep(INTERVAL_MS),
        Phase::Draining => Action::Receive,
        Phase::Rebuilding(bits) => Action::Rebuild(bits),
        Phase::Sampling => Action::Sample,
        Phase::Commanding(duty) => Action::Command(duty),
        Phase::Stopped => Action::Exit,
    }
}

/// The model after a tick has taken `readings`.
pub open spec fn sampled(m: Model, readings: Seq<i64>) -> Model {
    let window = slide(m.window, highest(readings));
    Model {
        curve: m.curve,
        window,
        phase: Phase::Commanding(duty_spec(m.curve, highest(window) as int) as u32),
    }
}

/// The daemon's loop, one event at a time: the model after `event` and
/// what there is to log. A tick drains the channel until nothing is
/// pending or receiving fails, applying each request as it comes; then it
/// samples, commands the backend, and sleeps. A backend that fails, or a
/// machine without sensors, ends the daemon.
pub open spec fn react(m: Model, event: Event) -> (Model, Note) {
    match (m.phase, event) {
        (Phase::Idle, Event::Woke) => (Model { phase: Phase::Draining, ..m }, Note::Quiet),
        (Phase::Draining, Event::Received(received)) => match step_spec(received) {
            Step::Rebuild(bits) => (Model { phase: Phase::Rebuilding(bits), ..m }, Note::Quiet),
            Step::Reject(message) => (m, Note::Rejected(message)),
            Step::Malformed(e) => (m, Note::Malformed(e)),
            Step::Drained => (Model { phase: Phase::Sampling, ..m }, Note::Quiet),
            Step::Failed => (Model { phase: Phase::Sampling, ..m }, Note::ReceiveFailed),
        },
        (Phase::Rebuilding(bits), Event::Rebuilt(Some(curve))) => (
            Model { curve: curve@, phase: Phase::Draining, ..m },
            Note::Applied(bits),
        ),
        (Phase::Rebuilding(bits), Event::Rebuilt(None)) => (
            Model { phase: Phase::Draining, ..m },
            Note::NoCurve(bits),
        ),
        (Phase::Sampling, Event::Sampled(readings)) => if readings@.len() > 0 {
            (sampled(m, readings@), Note::Quiet)
        } else {
            (Model { phase: Phase::Stopped, ..m }, Note::NoSensors)
        },
        (Phase::Commanding(_), Event::Commanded(Ok(_))) => (
            Model { phase: Phase::Idle, ..m },
            Note::Quiet,
        ),
        (Phase::Commanding(_), Event::Commanded(Err(_))) => (
            Model { phase: Phase::Stopped, ..m },
            Note::BackendFailed,
        ),
        _ => (m, Note::OutOfTurn),
    }
}

/// The regulator's state: the curve in force, the smoothing window, where
/// it stands in its loop, and the path of the control endpoint that it
/// owns.
#[derive(Debug)]
pub struct Daemon {
    curve: GammaCurve,
    window: ExcessAggregator,
    phase: Phase,
    sock_path: String,
}

impl Daemon {
    /// The samples of the curve in force.
    pub closed spec fn curve(&self) -> Seq<u32> {
        self.curve@
    }

    /// The smoothing window, oldest sample first.
    pub closed spec fn window(&self) -> Seq<i64> {
        self.window@
    }

    /// Where the daemon stands in its loop.
    pub closed spec fn phase(&self) -> Phase {
        self.phase
    }

    /// The path of the control endpoint.
    pub closed spec fn endpoint(&self) -> Seq<char> {
        self.sock_path@
    }

    /// What the daemon's decisions depend on.
    pub open spec fn model(&self) -> Model {
        Model { curve: self.curve(), window: self.window(), phase: self.phase() }
    }

    /// The state is whole.
    pub closed spec fn wf(&self) -> bool {
        self.window.wf()
    }

    /// The window of a daemon always holds ten samples.
    pub proof fn lemma_window_len(&self)
        requires
            self.wf(),
        ensures
            self.window().len() == WINDOW,
    {
        self.window.lemma_window_len();
    }

    /// A daemon that will listen at `sock_path` and starts out idle, with
    /// `curve` and an unpopulated window; it fails where no local socket
    /// can have that path.
    pub fn new(sock_path: &str, curve: GammaCurve) -> (r: Result<Daemon, Error>)
        ensures
            r is Ok <==> addressable(sock_path.spec_bytes()),
            r matches Ok(d) ==> {
                &&& d.wf()
                &&& d.curve() == curve@
                &&& d.window() == empty_window()
                &&& d.phase() == Phase::Idle
                &&& d.endpoint() == sock_path@
            },
    {
        if !is_addressable(sock_path) {
            return Err(Error::from(invalid_input()));
        }
        Ok(
            Daemon {
                curve,
                window: ExcessAggregator::new(),
                phase: Phase::Idle,
                sock_path: sock_path.to_owned(),
            },
        )
    }

    /// The path of the control endpoint, which is to be removed when the
    /// daemon goes.
    pub fn sock_path(&self) -> (p: &str)
        ensures
            p@ == self.endpoint(),
    {
        self.sock_path.as_str()
    }

    /// Puts a rebuilt curve in force, whole.
    pub fn set_gamma(&mut self, curve: GammaCurve)
        requires
            old(self).wf(),
        ensures
            final(self).wf(),
            final(self).curve() == curve@,
            final(self).window() == old(self).window(),
            final(self).phase() == old(self).phase(),
            final(self).endpoint() == old(self).endpoint(),
    {
        self.curve = curve;
    }

    /// Reads the curve in force at `x` millionths.
    pub fn apply_gamma(&self, x: u32) -> (y: u32)
        ensures
            y == evaluate_spec(self.curve(), x as int),
            y <= UNIT,
            valid_samples(self.curve()),
    {
        self.curve.evaluate(x)
    }

    /// The linear response to `excess`, in millionths.
    pub fn speed_factor_for_excess(&self, excess: i64) -> (f: u32)
        ensures
            f == speed_factor_spec(excess as int),
            f <= UNIT,
    {
        speed_factor_for_excess(excess)
    }

    /// The duty that the curve in force gives for `excess`.
    pub fn speed_for_excess(&self, excess: i64) -> (d: u32)
        ensures
            d == duty_spec(self.curve(), excess as int),
            MIN_FAN <= d <= UNIT,
    {
        duty_for_excess(&self.curve, excess)
    }

    /// Decides what follows one attempt to receive. A datagram that is no
    /// message, or a message that cannot be applied, never ends the drain.
    pub fn handle_message(received: &Received) -> (step: Step)
        ensures
            step == step_spec(*received),
    {
        match received {
            Received::Datagram(bytes) => match Message::decode(bytes.as_slice()) {
                Ok(Message::SetGamma(bits)) => if is_usable_exponent(bits) {
                    Step::Rebuild(bits)
                } else {
                    Step::Reject(Message::SetGamma(bits))
                },
                Err(e) => Step::Malformed(e),
            },
            Received::WouldBlock => Step::Drained,
            Received::Failed => Step::Failed,
        }
    }

    /// One tick: records the worst of `readings` in the window and gives
    /// the duty to command, which is the curve's answer to the highest
    /// excess that the window then holds.
    pub fn tick(&mut self, readings: &Vec<i64>) -> (duty: u32)
        requires
            old(self).wf(),
            readings.len() > 0,
        ensures
            final(self).wf(),
            final(self).curve() == old(self).curve(),
            final(self).phase() == old(self).phase(),
            final(self).endpoint() == old(self).endpoint(),
            final(self).window() == slide(old(self).window(), highest(readings@)),
            duty == duty_spec(final(self).curve(), highest(final(self).window()) as int),
            MIN_FAN <= duty <= UNIT,
    {
        let worst: i64 = worst_excess(readings);
        self.window.record(worst);
        let smoothed: i64 = self.window.smoothed();
        duty_for_excess(&self.curve, smoothed)
    }

    /// The action whose outcome the daemon is waiting for.
    pub fn pending(&self) -> (action: Action)
        ensures
            action == awaited(self.phase()),
    {
        match self.phase {
            Phase::Idle => Action::Sleep(INTERVAL_MS),
            Phase::Draining => Action::Receive,
            Phase::Rebuilding(bits) => Action::Rebuild(bits),
            Phase::Sampling => Action::Sample,
            Phase::Commanding(duty) => Action::Command(duty),
            Phase::Stopped => Action::Exit,
        }
    }

    /// Takes the outcome of the last action and says what to do next and
    /// what to log. The action asked for is always the one that the new
    /// phase waits for; an event that answers no action asked for changes
    /// nothing.
    pub fn advance(&mut self, event: Event) -> (reaction: Reaction)
        requires
            old(self).wf(),
        ensures
            final(self).wf(),
            final(self).endpoint() == old(self).endpoint(),
            final(self).model() == react(old(self).model(), event).0,
            reaction.note == react(old(self).model(), event).1,
            reaction.action == awaited(final(self).phase()),
    {
        let note: Note = match (self.phase, event) {
            (Phase::Idle, Event::Woke) => {
                self.phase = Phase::Draining;
                Note::Quiet
            },
            (Phase::Draining, Event::Received(received)) => {
                match Daemon::handle_message(&received) {
                    Step::Rebuild(bits) => {
                        self.phase = Phase::Rebuilding(bits);
                        Note::Quiet
                    },
                    Step::Reject(message) => Note::Rejected(message),
                    Step::Malformed(e) => Note::Malformed(e),
                    Step::Drained => {
                        self.phase = Phase::Sampling;
                        Note::Quiet
                    },
                    Step::Failed => {
                        self.phase = Phase::Sampling;
                        Note::ReceiveFailed
                    },
                }
            },
            (Phase::Rebuilding(bits), Event::Rebuilt(Some(curve))) => {
                self.set_gamma(curve);
                self.phase = Phase::Draining;
                Note::Applied(bits)
            },
            (Phase::Rebuilding(bits), Event::Rebuilt(None)) => {
                self.phase = Phase::Draining;
                Note::NoCurve(bits)
            },
            (Phase::Sampling, Event::Sampled(readings)) => {
                if readings.len() > 0 {
                    let duty: u32 = self.tick(&readings);
                    self.phase = Phase::Commanding(duty);
                    Note::Quiet
                } else {
                    self.phase = Phase::Stopped;
                    Note::NoSensors
                }
            },
            (Phase::Commanding(_), Event::Commanded(Ok(_))) => {
                self.phase = Phase::Idle;
                Note::Quiet
            },
            (Phase::Commanding(_), Event::Commanded(Err(_))) => {
                self.phase = Phase::Stopped;
                Note::BackendFailed
            },
            _ => Note::OutOfTurn,
        };
        Reaction { action: self.pending(), note }
    }
}

/// Whatever bytes arrive while the channel is drained, the daemon goes on:
/// it receives again or asks for a curve, and neither the curve in force
/// nor the window changes.
pub proof fn lemma_datagram_never_ends_drain(m: Model, bytes: Vec<u8>)
    requires
        m.phase == Phase::Draining,
    ensures
        ({
            let after = react(m, Event::Received(Received::Datagram(bytes))).0;
            &&& after.curve == m.curve
            &&& after.window == m.window
            &&& after.phase == Phase::Draining || (exists|bits: u64|
                after.phase == Phase::Rebuilding(bits) && usable_exponent(bits)
                    && decode_spec(bytes@) == Ok::<Message, DecodeError>(Message::SetGamma(bits)))
        }),
{
    let received = Received::Datagram(bytes);
    match step_spec(received) {
        Step::Rebuild(bits) => {
            assert(react(m, Event::Received(received)).0.phase == Phase::Rebuilding(bits));
        },
        _ => {},
    }
}

/// Once a rebuilt curve has come in, the duty that the same tick commands
/// is that curve's answer, not the answer of the curve it replaced.
pub proof fn lemma_rebuilt_curve_governs_next_duty(
    m: Model,
    bits: u64,
    curve: GammaCurve,
    readings: Vec<i64>,
)
    requires
        m.phase == Phase::Rebuilding(bits),
        readings@.len() > 0,
    ensures
        ({
            let rebuilt = react(m, Event::Rebuilt(Some(curve))).0;
            let drained = react(rebuilt, Event::Received(Received::WouldBlock)).0;
            let decided = react(drained, Event::Sampled(readings)).0;
            let window = slide(m.window, highest(readings@));
            &&& decided.curve == curve@
            &&& decided.window == window
            &&& decided.phase == Phase::Commanding(
                duty_spec(curve@, highest(window) as int) as u32,
            )
        }),
{
}

/// The daemon stops only when the backend fails or there is no sensor to
/// read, and once stopped it stays so.
pub proof fn lemma_stops_only_on_failure(m: Model, event: Event)
    ensures
        react(m, event).0.phase == Phase::Stopped <==> {
            ||| m.phase == Phase::Stopped
            ||| m.phase is Commanding && event matches Event::Commanded(Err(_))
            ||| m.phase == Phase::Sampling && (event matches Event::Sampled(readings)
                && readings@.len() == 0)
        },
{
}

/// Between two sleeps the daemon is in a tick, and a tick commands the
/// backend once: the phase after an event is idle only when the backend
/// has just taken a duty, or when the daemon idles and the event is out of
/// turn.
pub proof fn lemma_sleeps_only_after_command(m: Model, event: Event)
    ensures
        react(m, event).0.phase == Phase::Idle <==> {
            ||| m.phase is Commanding && event matches Event::Commanded(Ok(_))
            ||| m.phase == Phase::Idle && !(event is Woke)
        },
{
}

/// While every sample in the window lies at or below forty degrees under
/// the maximum, the duty commanded is the floor.
pub proof fn lemma_cool_window_gives_floor(s: Seq<u32>, w: Seq<i64>)
    requires
        valid_samples(s),
        forall|i: int| 0 <= i < w.len() ==> w[i] <= -(ACTION_MARGIN + RANGE),
    ensures
        duty_spec(s, highest(w) as int) == MIN_FAN,
{
    lemma_highest_bounded(w, (-(ACTION_MARGIN + RANGE)) as i64);
    lemma_duty_saturates(s, highest(w) as int);
}

/// The highest of a sequence is no higher than a bound on all its items
/// that an unpopulated slot meets too.
proof fn lemma_highest_bounded(w: Seq<i64>, bound: i64)
    requires
        forall|i: int| 0 <= i < w.len() ==> w[i] <= bound,
    ensures
        highest(w) <= bound,
    decreases w.len(),
{
    if w.len() > 0 {
        let front = w.drop_last();
        assert forall|i: int| 0 <= i < front.len() implies front[i] <= bound by {
            assert(front[i] == w[i]);
        }
        lemma_highest_bounded(front, bound);
        assert(w.last() == w[w.len() - 1]);
    }
}

} // verus!
