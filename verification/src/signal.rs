//! Signal kinds and their native identifiers.

use vstd::prelude::*;

verus! {

/// Native signal identifier: the control type that the console passes to a
/// handler routine.
pub type Signal = u32;

/// Ctrl-C was pressed.
pub const CTRL_C_EVENT: Signal = 0;

/// Ctrl-Break was pressed.
pub const CTRL_BREAK_EVENT: Signal = 1;

/// The console window is being closed.
pub const CTRL_CLOSE_EVENT: Signal = 2;

/// The user is logging off.
pub const CTRL_LOGOFF_EVENT: Signal = 5;

/// The system is shutting down.
pub const CTRL_SHUTDOWN_EVENT: Signal = 6;

/// Native identifier of the interrupt request.
pub const CTRL_C_SIGNAL: Signal = CTRL_C_EVENT;

/// Native identifier of the termination request.
pub const TERMINATION_SIGNAL: Signal = CTRL_BREAK_EVENT;

/// A kind of signal, independent of the platform.
#[derive(Debug, Clone, Copy, PartialEq, Eq, Hash)]
pub enum SignalType {
    /// Interrupt request (Ctrl-C).
    Ctrlc,
    /// Termination request.
    Termination,
    /// Any other signal, by its native identifier.
    Other(Signal),
}

impl SignalType {
    /// The native identifier that stands for this kind.
    pub open spec fn platform_signal(self) -> Signal {
        match self {
            SignalType::Ctrlc => CTRL_C_EVENT,
            SignalType::Termination => CTRL_BREAK_EVENT,
            SignalType::Other(s) => s,
        }
    }

    /// Get the underlying platform specific signal.
    pub fn to_platform_signal(&self) -> (sig: Signal)
        ensures
            sig == self.platform_signal(),
    {
        match *self {
            SignalType::Ctrlc => CTRL_C_EVENT,
            SignalType::Termination => CTRL_BREAK_EVENT,
            SignalType::Other(s) => s,
        }
    }

    /// The kind that a native identifier stands for: the interrupt and the
    /// termination request by their names, any other identifier as `Other`.
    pub open spec fn of_platform_signal(sig: Signal) -> SignalType {
        if sig == CTRL_C_EVENT {
            SignalType::Ctrlc
        } else if sig == CTRL_BREAK_EVENT {
            SignalType::Termination
        } else {
            SignalType::Other(sig)
        }
    }

    /// Whether this is the kind by which its native identifier is known:
    /// every kind but `Other` of an identifier that has a name.
    pub open spec fn is_canonical(self) -> bool {
        self != SignalType::Other(CTRL_C_EVENT) && self != SignalType::Other(CTRL_BREAK_EVENT)
    }

    /// Get the kind of a platform specific signal.
    pub fn from_platform_signal(sig: Signal) -> (kind: SignalType)
        ensures
            kind == SignalType::of_platform_signal(sig),
    {
        if sig == CTRL_C_EVENT {
            SignalType::Ctrlc
        } else if sig == CTRL_BREAK_EVENT {
            SignalType::Termination
        } else {
            SignalType::Other(sig)
        }
    }
}

/// A kind that is canonical comes back from its native identifier.
pub proof fn lemma_kind_round_trip(kind: SignalType)
    requires
        kind.is_canonical(),
    ensures
        SignalType::of_platform_signal(kind.platform_signal()) == kind,
{
}

/// A native identifier comes back from its kind, and that kind is
/// canonical: it is the only canonical kind that stands for the identifier.
pub proof fn lemma_signal_round_trip(sig: Signal)
    ensures
        SignalType::of_platform_signal(sig).platform_signal() == sig,
        SignalType::of_platform_signal(sig).is_canonical(),
        forall|kind: SignalType|
            kind.is_canonical() && kind.platform_signal() == sig
                ==> kind == SignalType::of_platform_signal(sig),
{
}

/// `Other` of an identifier that has a name stands for the same identifier
/// as the named kind, and so comes back as the named kind.
pub proof fn lemma_named_signal_wins(kind: SignalType)
    requires
        !kind.is_canonical(),
    ensures
        SignalType::of_platform_signal(kind.platform_signal()) != kind,
        SignalType::of_platform_signal(kind.platform_signal()).platform_signal()
            == kind.platform_signal(),
{
}

/// The native identifiers of the signals that this platform delivers, in
/// rising order: the five control events, and no identifier between them
/// that the console never passes to a handler routine.
pub open spec fn platform_signals() -> Seq<Signal> {
    seq![
        CTRL_C_EVENT,
        CTRL_BREAK_EVENT,
        CTRL_CLOSE_EVENT,
        CTRL_LOGOFF_EVENT,
        CTRL_SHUTDOWN_EVENT,
    ]
}

/// Iterator returning available signals on this system: each call gives
/// the same five identifiers afresh, in rising order.
pub fn signal_iterator() -> (signals: Vec<Signal>)
    ensures
        signals@ == platform_signals(),
{
    let mut signals: Vec<Signal> = Vec::new();
    signals.push(CTRL_C_EVENT);
    signals.push(CTRL_BREAK_EVENT);
    signals.push(CTRL_CLOSE_EVENT);
    signals.push(CTRL_LOGOFF_EVENT);
    signals.push(CTRL_SHUTDOWN_EVENT);
    assert(signals@ =~= platform_signals());
    signals
}

/// The signals of this platform are five, they are the control events and
/// nothing else, they rise, and none occurs twice.
pub proof fn lemma_platform_signals_distinct()
    ensures
        platform_signals().len() == 5,
        forall|sig: Signal|
            platform_signals().contains(sig) <==> (sig == CTRL_C_EVENT || sig == CTRL_BREAK_EVENT
                || sig == CTRL_CLOSE_EVENT || sig == CTRL_LOGOFF_EVENT || sig
                == CTRL_SHUTDOWN_EVENT),
        forall|i: int, j: int|
            0 <= i < j < platform_signals().len() ==> platform_signals()[i] < platform_signals()[j],
        platform_signals().no_duplicates(),
{
    let signals = platform_signals();
    assert(signals[0] == CTRL_C_EVENT);
    assert(signals[1] == CTRL_BREAK_EVENT);
    assert(signals[2] == CTRL_CLOSE_EVENT);
    assert(signals[3] == CTRL_LOGOFF_EVENT);
    assert(signals[4] == CTRL_SHUTDOWN_EVENT);
}

} // verus!
