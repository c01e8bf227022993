//! Connectivity manager.
//!
//! The radio task runs an indefinite loop: observe the stop flag and the
//! radio's condition, bring the radio up if needed, attempt to connect with a
//! bounded timeout, back off on failure, and wait out disconnects. All the
//! decisions of that loop live here as a state machine over plain observed
//! events; the task performs the returned action (a radio call or a pause)
//! and hands the outcome back as the next event. Each transition publishes a
//! progress code for the watchdog, so a hung radio call shows up as a stalled
//! marker.

use vstd::prelude::*;

verus! {

/// Progress code published when the machine starts waiting for a disconnect.
pub const PROGRESS_AWAIT_DISCONNECT: u32 = 10;

/// Progress code published when the disconnect event arrived.
pub const PROGRESS_DISCONNECTED: u32 = 11;

/// Progress code published when the radio is being configured and started.
pub const PROGRESS_STARTING: u32 = 13;

/// Progress code published when the capability scan begins.
pub const PROGRESS_SCANNING: u32 = 15;

/// Progress code published when a bounded connect attempt begins.
pub const PROGRESS_CONNECTING: u32 = 20;

/// Progress code published when a connect attempt succeeded.
pub const PROGRESS_CONNECT_OK: u32 = 21;

/// Progress code published when a connect attempt failed with an error.
pub const PROGRESS_CONNECT_FAILED: u32 = 22;

/// Progress code published when a connect attempt hit the explicit timeout.
pub const PROGRESS_CONNECT_TIMEOUT: u32 = 23;

/// Debounce pause after a connect outcome, successful or not, in
/// milliseconds.
pub const DEBOUNCE_MILLIS: u64 = 2000;

/// Longer pause after a disconnect, to avoid a tight reconnect spin.
pub const RECONNECT_PAUSE_MILLIS: u64 = 5000;

/// Where the connectivity task stands in its lifecycle.
#[derive(Debug, Clone, Copy, PartialEq, Eq, Structural)]
pub enum ConnectivityState {
    /// At the loop head with the radio started state unknown.
    Idle,
    /// Configuring and starting the radio.
    Starting,
    /// Running the bounded capability scan.
    Scanning,
    /// A bounded connect attempt is in flight.
    Connecting,
    /// The last connect attempt succeeded.
    Connected,
    /// Connected earlier; waiting for the radio's disconnect event.
    WaitingForDisconnect,
    /// The stop signal was observed; the task leaves its loop. Terminal.
    Stopped,
}

/// How a bounded connect attempt resolved.
#[derive(Debug, Clone, Copy, PartialEq, Eq, Structural)]
pub enum ConnectOutcome {
    /// The radio associated with the network.
    Success,
    /// The radio reported an error.
    Failed,
    /// The explicit attempt timeout elapsed first.
    TimedOut,
}

/// One observation the radio task hands to the machine.
#[derive(Debug, Clone, Copy, PartialEq, Eq, Structural)]
pub enum ConnEvent {
    /// Loop-head poll: the stop flag first, then whether the station is
    /// currently associated and whether the radio is started.
    Poll { stop: bool, connected: bool, started: bool },
    /// The radio raised its disconnect event.
    Disconnected,
    /// Configure-and-start finished.
    StartComplete,
    /// The capability scan finished.
    ScanComplete,
    /// The bounded connect attempt resolved.
    Attempted(ConnectOutcome),
}

/// What the radio task must do next to produce the following event.
#[derive(Debug, Clone, Copy, PartialEq, Eq, Structural)]
pub enum ConnAction {
    /// Read the stop flag and the radio condition, and deliver a poll event.
    Poll,
    /// Apply the station configuration and start the radio.
    ConfigureAndStart,
    /// Run the bounded capability scan.
    Scan,
    /// Attempt to connect, bounded by the explicit attempt timeout.
    Connect,
    /// Wait for the radio's disconnect event.
    AwaitDisconnect,
    /// Pause this many milliseconds, then poll again.
    Pause(u64),
    /// Leave the task loop; the task terminates.
    Exit,
}

/// The action a state is waiting on: performing it yields that state's next
/// event.
pub open spec fn awaited_action(s: ConnectivityState) -> ConnAction {
    match s {
        ConnectivityState::Idle => ConnAction::Poll,
        ConnectivityState::Connected => ConnAction::Poll,
        ConnectivityState::Starting => ConnAction::ConfigureAndStart,
        ConnectivityState::Scanning => ConnAction::Scan,
        ConnectivityState::Connecting => ConnAction::Connect,
        ConnectivityState::WaitingForDisconnect => ConnAction::AwaitDisconnect,
        ConnectivityState::Stopped => ConnAction::Exit,
    }
}

/// The state after observing one event. The stop flag is decided first at
/// every loop head; events that a state is not waiting on change nothing.
pub open spec fn next_state(s: ConnectivityState, ev: ConnEvent) -> ConnectivityState {
    if s is Stopped {
        ConnectivityState::Stopped
    } else {
        match ev {
            ConnEvent::Poll { stop, connected, started } => {
                if s is Idle || s is Connected {
                    if stop {
                        ConnectivityState::Stopped
                    } else if connected {
                        ConnectivityState::WaitingForDisconnect
                    } else if !started {
                        ConnectivityState::Starting
                    } else {
                        ConnectivityState::Connecting
                    }
                } else {
                    s
                }
            },
            ConnEvent::Disconnected => if s is WaitingForDisconnect {
                ConnectivityState::Idle
            } else {
                s
            },
            ConnEvent::StartComplete => if s is Starting {
                ConnectivityState::Scanning
            } else {
                s
            },
            ConnEvent::ScanComplete => if s is Scanning {
                ConnectivityState::Connecting
            } else {
                s
            },
            ConnEvent::Attempted(outcome) => if s is Connecting {
                if outcome is Success {
                    ConnectivityState::Connected
                } else {
                    ConnectivityState::Idle
                }
            } else {
                s
            },
        }
    }
}

/// The progress code published at one transition, if the transition is a step
/// boundary. Stopping publishes nothing: the task is about to exit.
pub open spec fn progress_code(s: ConnectivityState, ev: ConnEvent) -> Option<u32> {
    if s is Stopped {
        None
    } else {
        match ev {
            ConnEvent::Poll { stop, connected, started } => {
                if s is Idle || s is Connected {
                    if stop {
                        None
                    } else if connected {
                        Some(PROGRESS_AWAIT_DISCONNECT)
                    } else if !started {
                        Some(PROGRESS_STARTING)
                    } else {
                        Some(PROGRESS_CONNECTING)
                    }
                } else {
                    None
                }
            },
            ConnEvent::Disconnected => if s is WaitingForDisconnect {
                Some(PROGRESS_DISCONNECTED)
            } else {
                None
            },
            ConnEvent::StartComplete => if s is Starting {
                Some(PROGRESS_SCANNING)
            } else {
                None
            },
            ConnEvent::ScanComplete => if s is Scanning {
                Some(PROGRESS_CONNECTING)
            } else {
                None
            },
            ConnEvent::Attempted(outcome) => if s is Connecting {
                match outcome {
                    ConnectOutcome::Success => Some(PROGRESS_CONNECT_OK),
                    ConnectOutcome::Failed => Some(PROGRESS_CONNECT_FAILED),
                    ConnectOutcome::TimedOut => Some(PROGRESS_CONNECT_TIMEOUT),
                }
            } else {
                None
            },
        }
    }
}

/// The action returned after one transition: a backoff pause after a connect
/// outcome or a disconnect, otherwise whatever the new state waits on.
pub open spec fn next_action(s: ConnectivityState, ev: ConnEvent) -> ConnAction {
    if s is Connecting && ev is Attempted {
        ConnAction::Pause(DEBOUNCE_MILLIS)
    } else if s is WaitingForDisconnect && ev is Disconnected {
        ConnAction::Pause(RECONNECT_PAUSE_MILLIS)
    } else {
        awaited_action(next_state(s, ev))
    }
}

/// The connectivity manager: its lifecycle state and the progress code it
/// published last (zero before the first one, matching the marker's initial
/// value).
#[derive(Debug, Clone, Copy, PartialEq, Eq, Structural)]
pub struct ConnectivityManager {
    pub state: ConnectivityState,
    pub last_progress: u32,
}

/// A freshly spawned manager.
pub open spec fn manager_init() -> ConnectivityManager {
    ConnectivityManager { state: ConnectivityState::Idle, last_progress: 0 }
}

/// The whole manager after one event: the state advances and the published
/// code, if any, is remembered.
pub open spec fn manager_step(m: ConnectivityManager, ev: ConnEvent) -> ConnectivityManager {
    ConnectivityManager {
        state: next_state(m.state, ev),
        last_progress: match progress_code(m.state, ev) {
            Some(code) => code,
            None => m.last_progress,
        },
    }
}

impl ConnectivityManager {
    /// A manager at the top of its loop, nothing published yet.
    pub fn new() -> (m: Self)
        ensures
            m == manager_init(),
    {
        ConnectivityManager { state: ConnectivityState::Idle, last_progress: 0 }
    }

    /// Feeds one observed event through the machine. Returns the action the
    /// task must perform next and the progress code to publish, if any.
    pub fn on_event(&mut self, ev: ConnEvent) -> (r: (ConnAction, Option<u32>))
        ensures
            *final(self) == manager_step(*old(self), ev),
            r.0 == next_action(old(self).state, ev),
            r.1 == progress_code(old(self).state, ev),
    {
        if matches!(self.state, ConnectivityState::Stopped) {
            return (ConnAction::Exit, None);
        }
        let at_loop_head = matches!(
            self.state,
            ConnectivityState::Idle | ConnectivityState::Connected
        );
        let debounce = matches!(self.state, ConnectivityState::Connecting) && matches!(
            ev,
            ConnEvent::Attempted(_)
        );
        let reconnect_pause = matches!(self.state, ConnectivityState::WaitingForDisconnect)
            && matches!(ev, ConnEvent::Disconnected);
        let code: Option<u32> = match ev {
            ConnEvent::Poll { stop, connected, started } => {
                if at_loop_head {
                    if stop {
                        self.state = ConnectivityState::Stopped;
                        None
                    } else if connected {
                        self.state = ConnectivityState::WaitingForDisconnect;
                        Some(PROGRESS_AWAIT_DISCONNECT)
                    } else if !started {
                        self.state = ConnectivityState::Starting;
                        Some(PROGRESS_STARTING)
                    } else {
                        self.state = ConnectivityState::Connecting;
                        Some(PROGRESS_CONNECTING)
                    }
                } else {
                    None
                }
            },
            ConnEvent::Disconnected => {
                if matches!(self.state, ConnectivityState::WaitingForDisconnect) {
                    self.state = ConnectivityState::Idle;
                    Some(PROGRESS_DISCONNECTED)
                } else {
                    None
                }
            },
            ConnEvent::StartComplete => {
                if matches!(self.state, ConnectivityState::Starting) {
                    self.state = ConnectivityState::Scanning;
                    Some(PROGRESS_SCANNING)
                } else {
                    None
                }
            },
            ConnEvent::ScanComplete => {
                if matches!(self.state, ConnectivityState::Scanning) {
                    self.state = ConnectivityState::Connecting;
                    Some(PROGRESS_CONNECTING)
                } else {
                    None
                }
            },
            ConnEvent::Attempted(outcome) => {
                if matches!(self.state, ConnectivityState::Connecting) {
                    match outcome {
                        ConnectOutcome::Success => {
                            self.state = ConnectivityState::Connected;
                            Some(PROGRESS_CONNECT_OK)
                        },
                        ConnectOutcome::Failed => {
                            self.state = ConnectivityState::Idle;
                            Some(PROGRESS_CONNECT_FAILED)
                        },
                        ConnectOutcome::TimedOut => {
                            self.state = ConnectivityState::Idle;
                            Some(PROGRESS_CONNECT_TIMEOUT)
                        },
                    }
                } else {
                    None
                }
            },
        };
        if let Some(c) = code {
            self.last_progress = c;
        }
        let action = if debounce {
            ConnAction::Pause(DEBOUNCE_MILLIS)
        } else if reconnect_pause {
            ConnAction::Pause(RECONNECT_PAUSE_MILLIS)
        } else {
            awaited(&self.state)
        };
        (action, code)
    }
}

/// Ties a manager's state to the progress code it must have published last:
/// entering a mid-iteration state publishes that state's code, and a loop
/// head is reached fresh, after a disconnect, or after a connect outcome.
pub open spec fn progress_consistent(m: ConnectivityManager) -> bool {
    match m.state {
        ConnectivityState::WaitingForDisconnect => m.last_progress == PROGRESS_AWAIT_DISCONNECT,
        ConnectivityState::Starting => m.last_progress == PROGRESS_STARTING,
        ConnectivityState::Scanning => m.last_progress == PROGRESS_SCANNING,
        ConnectivityState::Connecting => m.last_progress == PROGRESS_CONNECTING,
        ConnectivityState::Connected => m.last_progress == PROGRESS_CONNECT_OK,
        ConnectivityState::Idle => m.last_progress == 0 || m.last_progress == PROGRESS_DISCONNECTED
            || m.last_progress == PROGRESS_CONNECT_FAILED || m.last_progress
            == PROGRESS_CONNECT_TIMEOUT,
        ConnectivityState::Stopped => true,
    }
}

/// Every progress code the machine publishes differs from the one it
/// published before: as long as the machine transitions, the watchdog sees
/// the marker move and never counts a stall.
pub proof fn lemma_published_code_is_fresh(m: ConnectivityManager, ev: ConnEvent)
    requires
        progress_consistent(m),
    ensures
        progress_consistent(manager_step(m, ev)),
        progress_code(m.state, ev) matches Some(code) ==> code != m.last_progress,
{
}

/// The manager after a whole event sequence, from a fresh spawn.
pub open spec fn manager_run(events: Seq<ConnEvent>) -> ConnectivityManager
    decreases events.len(),
{
    if events.len() == 0 {
        manager_init()
    } else {
        manager_step(manager_run(events.drop_last()), events.last())
    }
}

/// All progress codes published along an event sequence, in order.
pub open spec fn published_codes(events: Seq<ConnEvent>) -> Seq<u32>
    decreases events.len(),
{
    if events.len() == 0 {
        Seq::empty()
    } else {
        let prefix = published_codes(events.drop_last());
        match progress_code(manager_run(events.drop_last()).state, events.last()) {
            Some(code) => prefix.push(code),
            None => prefix,
        }
    }
}

/// Along any event sequence from a fresh spawn, consecutive published
/// progress codes are pairwise distinct, so the watchdog sees progress at
/// every step boundary.
pub proof fn lemma_published_codes_all_fresh(events: Seq<ConnEvent>)
    ensures
        progress_consistent(manager_run(events)),
        published_codes(events).len() == 0 ==> manager_run(events).last_progress == 0,
        published_codes(events).len() > 0 ==> manager_run(events).last_progress == published_codes(
            events,
        ).last(),
        forall|j: int|
            0 <= j < published_codes(events).len() - 1 ==> #[trigger] published_codes(events)[j]
                != published_codes(events)[j + 1],
    decreases events.len(),
{
    if events.len() > 0 {
        let prior = events.drop_last();
        let before = manager_run(prior);
        lemma_published_codes_all_fresh(prior);
        lemma_published_code_is_fresh(before, events.last());
        let prefix = published_codes(prior);
        match progress_code(before.state, events.last()) {
            Some(code) => {
                assert(published_codes(events) == prefix.push(code));
                assert(forall|j: int|
                    0 <= j < prefix.len() ==> prefix.push(code)[j] == #[trigger] prefix[j]);
                if prefix.len() > 0 {
                    assert(published_codes(events)[prefix.len() - 1] == before.last_progress);
                    assert(published_codes(events)[prefix.len() as int] == code);
                }
            },
            None => {},
        }
    }
}

/// A stop request observed at a loop head stops the machine in that very
/// step: the next action is to leave the task loop.
pub proof fn lemma_stop_is_prompt(s: ConnectivityState, connected: bool, started: bool)
    requires
        s is Idle || s is Connected,
    ensures
        next_state(s, ConnEvent::Poll { stop: true, connected, started }) is Stopped,
        next_action(s, ConnEvent::Poll { stop: true, connected, started }) is Exit,
{
}

/// Stopped is terminal, and it is reached only by observing the stop signal.
pub proof fn lemma_stopped_is_terminal(s: ConnectivityState, ev: ConnEvent)
    ensures
        next_state(ConnectivityState::Stopped, ev) is Stopped,
        next_action(ConnectivityState::Stopped, ev) is Exit,
        next_state(s, ev) is Stopped ==> (s is Stopped || ev matches ConnEvent::Poll {
            stop: true,
            ..
        }),
{
}

/// The action the given state waits on, as executable code.
fn awaited(s: &ConnectivityState) -> (a: ConnAction)
    ensures
        a == awaited_action(*s),
{
    match s {
        ConnectivityState::Idle => ConnAction::Poll,
        ConnectivityState::Connected => ConnAction::Poll,
        ConnectivityState::Starting => ConnAction::ConfigureAndStart,
        ConnectivityState::Scanning => ConnAction::Scan,
        ConnectivityState::Connecting => ConnAction::Connect,
        ConnectivityState::WaitingForDisconnect => ConnAction::AwaitDisconnect,
        ConnectivityState::Stopped => ConnAction::Exit,
    }
}

} // verus!
