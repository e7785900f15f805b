use vstd::prelude::*;
use crate::app::App;
use crate::utils::{has_base58_run, is_sol_address};
use crate::wallet::WalletView;

verus! {

/// The key that ends monitoring.
pub const QUIT_KEY: char = 'q';

/// What the start-up checks found.
#[derive(Clone, Copy, Debug, PartialEq, Eq, Structural)]
pub enum Startup {
    /// The network could not be reached: stop before anything else.
    NoConnection,
    /// The address does not have the shape of an address: stop before the
    /// terminal is taken over.
    InvalidAddress,
    /// Monitoring can start.
    Ready,
}

/// The outcome of the start-up checks, in the order they are made.
pub open spec fn startup_of(connected: bool, address: Seq<char>) -> Startup {
    if !connected {
        Startup::NoConnection
    } else if !has_base58_run(address) {
        Startup::InvalidAddress
    } else {
        Startup::Ready
    }
}

/// Decides whether monitoring may start, from the outcome of the reachability
/// probe and the address given.
pub fn check_startup(connected: bool, address: &str) -> (r: Startup)
    ensures
        r == startup_of(connected, address@),
{
    if !connected {
        Startup::NoConnection
    } else if !is_sol_address(address) {
        Startup::InvalidAddress
    } else {
        Startup::Ready
    }
}

/// An identifier shorter than an address, the empty one among them, fails
/// validation, so monitoring never starts with it.
pub proof fn lemma_short_address_rejected(address: Seq<char>)
    requires
        address.len() < 32,
    ensures
        startup_of(true, address) == Startup::InvalidAddress,
{
}

impl Startup {
    /// The line shown to the user.
    pub fn message(&self) -> (r: &'static str)
        ensures
            r@ == (match self {
                Startup::NoConnection => "No internet connection!"@,
                Startup::InvalidAddress => "Your solana address is not valid!"@,
                Startup::Ready => "Everything is OK!"@,
            }),
    {
        match self {
            Startup::NoConnection => "No internet connection!",
            Startup::InvalidAddress => "Your solana address is not valid!",
            Startup::Ready => "Everything is OK!",
        }
    }
}

/// What the input watch saw.
#[derive(Clone, Copy, Debug, PartialEq, Eq, Structural)]
pub enum Input {
    /// No event within the watch window.
    Nothing,
    /// A key event: the character of the key, if it has one, and whether it
    /// was a press (rather than a repeat or a release).
    Key { ch: Option<char>, press: bool },
    /// Any other terminal event.
    Other,
}

impl Input {
    pub open spec fn is_quit_spec(&self) -> bool {
        *self == (Input::Key { ch: Some(QUIT_KEY), press: true })
    }

    /// Whether this is a press of the quit key.
    #[verifier::when_used_as_spec(is_quit_spec)]
    pub fn is_quit(&self) -> (r: bool)
        ensures
            r == self.is_quit_spec(),
    {
        match self {
            Input::Key { ch: Some(c), press } => *c == QUIT_KEY && *press,
            _ => false,
        }
    }
}

/// Where the monitor stands.
#[derive(Clone, Copy, Debug, PartialEq, Eq, Structural)]
pub enum Phase {
    /// The terminal is not yet taken over.
    Starting,
    /// The sample made before the loop, where no starting balance is recorded yet, is awaited.
    FirstSample,
    /// An iteration's sample is awaited.
    Sampling,
    /// The screen is being drawn.
    Drawing,
    /// The input watch is running.
    Watching,
    /// The rest of the interval is being waited out.
    Sleeping,
    /// The terminal is being given back.
    Exiting,
    /// The terminal has been given back; nothing remains to do.
    Done,
    /// The terminal could not be taken over; nothing remains to do.
    Aborted,
}

/// What the caller does next, and reports back as an [`Event`].
#[derive(Clone, Copy, Debug, PartialEq, Eq, Structural)]
pub enum Action {
    AcquireTerminal,
    FirstSample,
    Sample,
    Draw,
    WatchInput,
    Sleep,
    ReleaseTerminal,
    /// The event did not fit the phase: nothing new to do.
    Wait,
    Stop,
}

/// The outcome of the last action.
#[derive(Clone, Copy, Debug, PartialEq, Eq, Structural)]
pub enum Event {
    TerminalReady,
    /// A balance sample: the balance, or `None` where it could not be had,
    /// and the clock reading taken with it.
    Sampled { sample: Option<u64>, now: u64 },
    Drawn,
    Watched(Input),
    Slept,
    Released,
    /// An action could not be carried out.
    Failed,
}

/// The phase, the wallet and the action after one event.
pub open spec fn next(phase: Phase, w: WalletView, e: Event) -> (Phase, WalletView, Action) {
    match (phase, e) {
        (Phase::Starting, Event::TerminalReady) => if w.initial_lamports is Some {
            (Phase::Sampling, w, Action::Sample)
        } else {
            (Phase::FirstSample, w, Action::FirstSample)
        },
        (Phase::Starting, Event::Failed) => (Phase::Aborted, w, Action::Stop),
        (Phase::FirstSample, Event::Sampled { sample, now }) => (
            Phase::Sampling,
            w.with_sample(sample),
            Action::Sample,
        ),
        (Phase::Sampling, Event::Sampled { sample, now }) => (
            Phase::Drawing,
            w.step(sample, now),
            Action::Draw,
        ),
        (Phase::Drawing, Event::Drawn) => (Phase::Watching, w, Action::WatchInput),
        (Phase::Watching, Event::Watched(i)) => if i.is_quit() {
            (Phase::Exiting, w, Action::ReleaseTerminal)
        } else {
            (Phase::Sleeping, w, Action::Sleep)
        },
        (Phase::Sleeping, Event::Slept) => (Phase::Sampling, w, Action::Sample),
        (Phase::Exiting, Event::Released) => (Phase::Done, w, Action::Stop),
        (Phase::Exiting, _) => (phase, w, Action::Wait),
        (Phase::Done, _) => (phase, w, Action::Stop),
        (Phase::Aborted, _) => (phase, w, Action::Stop),
        (_, Event::Failed) => (Phase::Exiting, w, Action::ReleaseTerminal),
        _ => (phase, w, Action::Wait),
    }
}

/// The phase and wallet after a sequence of events.
pub open spec fn run(phase: Phase, w: WalletView, events: Seq<Event>) -> (Phase, WalletView)
    decreases events.len(),
{
    if events.len() == 0 {
        (phase, w)
    } else {
        let (p, v) = run(phase, w, events.drop_last());
        let (p2, v2, _) = next(p, v, events.last());
        (p2, v2)
    }
}

/// How many times the terminal is asked back over a sequence of events.
pub open spec fn releases(phase: Phase, w: WalletView, events: Seq<Event>) -> nat
    decreases events.len(),
{
    if events.len() == 0 {
        0
    } else {
        let (p, v) = run(phase, w, events.drop_last());
        releases(phase, w, events.drop_last()) + if next(p, v, events.last()).2
            == Action::ReleaseTerminal {
            1nat
        } else {
            0nat
        }
    }
}

/// The loop that samples, draws and watches for the quit key.
pub struct Monitor {
    pub phase: Phase,
    pub app: App,
}

impl Monitor {
    /// A monitor that has not yet taken the terminal over, and the action it asks for.
    pub fn new(app: App) -> (r: (Monitor, Action))
        ensures
            r.0.phase == Phase::Starting,
            r.0.app == app,
            r.1 == Action::AcquireTerminal,
    {
        (Monitor { phase: Phase::Starting, app }, Action::AcquireTerminal)
    }

    /// Takes the outcome of the last action and says what to do next.
    pub fn step(&mut self, event: Event) -> (a: Action)
        ensures
            (final(self).phase, final(self).app.wallet@, a) == next(old(self).phase, old(self).app.wallet@, event),
            final(self).app.config == old(self).app.config,
    {
        match (self.phase, event) {
            (Phase::Starting, Event::TerminalReady) => {
                if self.app.wallet.initial_lamports.is_some() {
                    self.phase = Phase::Sampling;
                    Action::Sample
                } else {
                    self.phase = Phase::FirstSample;
                    Action::FirstSample
                }
            },
            (Phase::Starting, Event::Failed) => {
                self.phase = Phase::Aborted;
                Action::Stop
            },
            (Phase::FirstSample, Event::Sampled { sample, now: _ }) => {
                self.app.wallet.take_first_sample(sample);
                self.phase = Phase::Sampling;
                Action::Sample
            },
            (Phase::Sampling, Event::Sampled { sample, now }) => {
                self.app.wallet.record_sample(sample, now);
                self.phase = Phase::Drawing;
                Action::Draw
            },
            (Phase::Drawing, Event::Drawn) => {
                self.phase = Phase::Watching;
                Action::WatchInput
            },
            (Phase::Watching, Event::Watched(i)) => {
                if i.is_quit() {
                    self.phase = Phase::Exiting;
                    Action::ReleaseTerminal
                } else {
                    self.phase = Phase::Sleeping;
                    Action::Sleep
                }
            },
            (Phase::Sleeping, Event::Slept) => {
                self.phase = Phase::Sampling;
                Action::Sample
            },
            (Phase::Exiting, Event::Released) => {
                self.phase = Phase::Done;
                Action::Stop
            },
            (Phase::Exiting, _) => Action::Wait,
            (Phase::Done, _) => Action::Stop,
            (Phase::Aborted, _) => Action::Stop,
            (_, Event::Failed) => {
                self.phase = Phase::Exiting;
                Action::ReleaseTerminal
            },
            _ => Action::Wait,
        }
    }
}

/// From the start, the terminal is asked back once the monitor is exiting or
/// done, and never before: at most once over any run, whatever the events.
pub proof fn lemma_released_once(w: WalletView, events: Seq<Event>)
    ensures
        releases(Phase::Starting, w, events) == if run(Phase::Starting, w, events).0 == Phase::Exiting
            || run(Phase::Starting, w, events).0 == Phase::Done {
            1nat
        } else {
            0nat
        },
        releases(Phase::Starting, w, events) <= 1,
    decreases events.len(),
{
    if events.len() > 0 {
        lemma_released_once(w, events.drop_last());
    }
}

/// Whatever the events, the monitor never forgets a sampled balance, never
/// changes the starting balance once recorded, and keeps the two consistent.
pub proof fn lemma_monitor_keeps_balances(phase: Phase, w: WalletView, events: Seq<Event>)
    requires
        w.consistent(),
    ensures
        run(phase, w, events).1.consistent(),
        w.lamports is Some ==> run(phase, w, events).1.lamports is Some,
        w.initial_lamports is Some ==> run(phase, w, events).1.initial_lamports == w.initial_lamports,
    decreases events.len(),
{
    if events.len() > 0 {
        lemma_monitor_keeps_balances(phase, w, events.drop_last());
    }
}

} // verus!
