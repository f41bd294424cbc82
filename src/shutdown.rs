//! The shutdown broadcaster's decisions: which operating-system signals ask
//! for shutdown, and the rule that the cancellation fires once and is never
//! reset.

use vstd::prelude::*;

verus! {

/// The operating-system signals the broadcaster listens for.
#[derive(Clone, Copy, Debug, PartialEq, Eq, Structural)]
pub enum Signal {
    Hangup,
    Terminate,
    Interrupt,
    Quit,
}

/// What the broadcaster does on a signal.
#[derive(Clone, Copy, Debug, PartialEq, Eq, Structural)]
pub enum SignalAction {
    /// Reload hook; nothing to do in this system.
    Reload,
    /// Fire the cancellation, and stop listening.
    Shutdown,
    /// Nothing: the cancellation has already fired.
    Ignore,
}

pub open spec fn requests_shutdown(sig: Signal) -> bool {
    sig != Signal::Hangup
}

/// One signal arriving: whether the cancellation has fired afterwards, and
/// the action.
pub open spec fn signal_step(fired: bool, sig: Signal) -> (bool, SignalAction) {
    if fired {
        (true, SignalAction::Ignore)
    } else if requests_shutdown(sig) {
        (true, SignalAction::Shutdown)
    } else {
        (false, SignalAction::Reload)
    }
}

/// Signals fed in order to a listener that has not fired: whether it has
/// fired, and how many times it fired.
pub open spec fn listen(signals: Seq<Signal>) -> (bool, nat)
    decreases signals.len(),
{
    if signals.len() == 0 {
        (false, 0)
    } else {
        let before = listen(signals.drop_last());
        let step = signal_step(before.0, signals.last());
        (step.0, before.1 + if step.1 == SignalAction::Shutdown { 1nat } else { 0nat })
    }
}

/// Whatever signals arrive, the cancellation fires at most once, and it has
/// fired exactly when one of them asked for shutdown.
pub proof fn lemma_fires_once(signals: Seq<Signal>)
    ensures
        listen(signals).1 <= 1,
        listen(signals).0 == (listen(signals).1 == 1),
        listen(signals).0 == exists|i: int| 0 <= i < signals.len() && requests_shutdown(
            #[trigger] signals[i],
        ),
    decreases signals.len(),
{
    if signals.len() > 0 {
        let prev = signals.drop_last();
        lemma_fires_once(prev);
        if exists|i: int| 0 <= i < prev.len() && requests_shutdown(#[trigger] prev[i]) {
            let i = choose|i: int| 0 <= i < prev.len() && requests_shutdown(#[trigger] prev[i]);
            assert(signals[i] == prev[i]);
        }
        if exists|i: int| 0 <= i < signals.len() && requests_shutdown(#[trigger] signals[i]) {
            let i = choose|i: int| 0 <= i < signals.len() && requests_shutdown(#[trigger] signals[i]);
            if i < prev.len() {
                assert(prev[i] == signals[i]);
            }
        }
    }
}

/// Listens for signals until the cancellation fires.
pub struct ShutdownListener {
    fired: bool,
}

impl ShutdownListener {
    pub closed spec fn fired(&self) -> bool {
        self.fired
    }

    /// A listener whose cancellation has not fired.
    pub fn new() -> (r: ShutdownListener)
        ensures
            !r.fired(),
    {
        ShutdownListener { fired: false }
    }

    /// Whether the cancellation has fired.
    pub fn is_fired(&self) -> (r: bool)
        ensures
            r == self.fired(),
    {
        self.fired
    }

    /// Decides on one signal: hang-up is the reload hook; terminate,
    /// interrupt and quit fire the cancellation the first time.
    pub fn on_signal(&mut self, sig: Signal) -> (r: SignalAction)
        ensures
            (final(self).fired(), r) == signal_step(old(self).fired(), sig),
    {
        if self.fired {
            SignalAction::Ignore
        } else {
            match sig {
                Signal::Hangup => SignalAction::Reload,
                _ => {
                    self.fired = true;
                    SignalAction::Shutdown
                },
            }
        }
    }
}

} // verus!
