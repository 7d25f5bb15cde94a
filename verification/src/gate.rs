//! The readiness gate: two readiness flags and a timeout decide, once, when
//! the splash window gives way to the main window.
//!
//! A gate is a plain value. The host keeps it behind its own lock, feeds it
//! one signal at a time and performs the action that comes back.

use vstd::prelude::*;

verus! {

/// Seconds after startup at which the host sends [`GateSignal::TimeoutElapsed`].
pub const REVEAL_TIMEOUT_SECS: u64 = 5;

/// The three flags of the readiness gate as plain values.
pub struct GateFlags {
    pub backend_ready: bool,
    pub frontend_ready: bool,
    pub switched: bool,
}

/// The two states of the readiness gate.
#[derive(Clone, Copy, Debug, PartialEq, Eq, Structural)]
pub enum GatePhase {
    Waiting,
    Revealed,
}

/// What can reach the readiness gate.
#[derive(Clone, Copy, Debug, PartialEq, Eq, Structural)]
pub enum GateSignal {
    /// The backend process was launched.
    BackendReady,
    /// The frontend reported that it has loaded.
    FrontendReady,
    /// The startup timeout ran out.
    TimeoutElapsed,
}

/// What the host has to do after a signal was handled.
#[derive(Clone, Copy, Debug, PartialEq, Eq, Structural)]
pub enum GateAction {
    /// Nothing: the readiness gate is still waiting, or the reveal already happened.
    Stay,
    /// Close the splash window, show and focus the main window and set its title.
    RevealTitled,
    /// Close the splash window, show and focus the main window; the title is
    /// left alone.
    RevealUntitled,
}

impl GateFlags {
    /// All flags down.
    pub open spec fn initial() -> GateFlags {
        GateFlags { backend_ready: false, frontend_ready: false, switched: false }
    }

    /// `switched` is only up when both readiness flags are up.
    pub open spec fn consistent(self) -> bool {
        self.switched ==> self.backend_ready && self.frontend_ready
    }

    pub open spec fn phase(self) -> GatePhase {
        if self.switched {
            GatePhase::Revealed
        } else {
            GatePhase::Waiting
        }
    }

    /// The flags after a check for readiness.
    pub open spec fn checked(self) -> GateFlags {
        GateFlags { switched: self.switched || (self.backend_ready && self.frontend_ready), ..self }
    }

    /// The action of a check for readiness: a reveal exactly when the check
    /// is the one that raises `switched`.
    pub open spec fn check_action(self) -> GateAction {
        if !self.switched && self.backend_ready && self.frontend_ready {
            GateAction::RevealTitled
        } else {
            GateAction::Stay
        }
    }

    /// The flags after `signal`.
    pub open spec fn after(self, signal: GateSignal) -> GateFlags {
        match signal {
            GateSignal::BackendReady => GateFlags { backend_ready: true, ..self }.checked(),
            GateSignal::FrontendReady => GateFlags { frontend_ready: true, ..self }.checked(),
            GateSignal::TimeoutElapsed => if self.switched {
                self
            } else {
                GateFlags { backend_ready: true, frontend_ready: true, switched: true }
            },
        }
    }

    /// The action that `signal` asks of the host.
    pub open spec fn action(self, signal: GateSignal) -> GateAction {
        match signal {
            GateSignal::BackendReady => GateFlags { backend_ready: true, ..self }.check_action(),
            GateSignal::FrontendReady => GateFlags { frontend_ready: true, ..self }.check_action(),
            GateSignal::TimeoutElapsed => if self.switched {
                GateAction::Stay
            } else {
                GateAction::RevealUntitled
            },
        }
    }

    /// The flags after a whole sequence of signals, first to last.
    pub open spec fn after_all(self, signals: Seq<GateSignal>) -> GateFlags
        decreases signals.len(),
    {
        if signals.len() == 0 {
            self
        } else {
            self.after(signals[0]).after_all(signals.skip(1))
        }
    }

    /// How many reveals the host is asked for over a whole sequence of signals.
    pub open spec fn reveals(self, signals: Seq<GateSignal>) -> nat
        decreases signals.len(),
    {
        if signals.len() == 0 {
            0
        } else {
            let rest = self.after(signals[0]).reveals(signals.skip(1));
            if self.action(signals[0]).is_reveal() {
                rest + 1
            } else {
                rest
            }
        }
    }
}

impl GateAction {
    pub open spec fn is_reveal(self) -> bool {
        self != GateAction::Stay
    }

    /// Whether the host has to reveal the main window.
    pub fn reveals(&self) -> (r: bool)
        ensures
            r == self.is_reveal(),
    {
        match self {
            GateAction::Stay => false,
            GateAction::RevealTitled => true,
            GateAction::RevealUntitled => true,
        }
    }

    /// Whether the reveal also sets the title of the main window.
    pub fn sets_title(&self) -> (r: bool)
        ensures
            r == (*self == GateAction::RevealTitled),
    {
        match self {
            GateAction::RevealTitled => true,
            _ => false,
        }
    }
}

/// The readiness gate itself.
pub struct Gate {
    backend_ready: bool,
    frontend_ready: bool,
    switched: bool,
}

impl View for Gate {
    type V = GateFlags;

    closed spec fn view(&self) -> GateFlags {
        GateFlags {
            backend_ready: self.backend_ready,
            frontend_ready: self.frontend_ready,
            switched: self.switched,
        }
    }
}

impl Gate {
    #[verifier::type_invariant]
    spec fn switched_after_ready(self) -> bool {
        self.switched ==> self.backend_ready && self.frontend_ready
    }

    /// A gate with all three flags down.
    pub fn new() -> (gate: Gate)
        ensures
            gate@ == GateFlags::initial(),
    {
        Gate { backend_ready: false, frontend_ready: false, switched: false }
    }

    pub fn backend_ready(&self) -> (r: bool)
        ensures
            r == self@.backend_ready,
    {
        self.backend_ready
    }

    pub fn frontend_ready(&self) -> (r: bool)
        ensures
            r == self@.frontend_ready,
    {
        self.frontend_ready
    }

    /// Whether the reveal has happened. Every gate is consistent: it has
    /// only happened with both readiness flags up.
    pub fn switched(&self) -> (r: bool)
        ensures
            r == self@.switched,
            self@.consistent(),
    {
        proof {
            use_type_invariant(self);
        }
        self.switched
    }

    pub fn phase(&self) -> (r: GatePhase)
        ensures
            r == self@.phase(),
            self@.consistent(),
    {
        proof {
            use_type_invariant(self);
        }
        if self.switched {
            GatePhase::Revealed
        } else {
            GatePhase::Waiting
        }
    }

    /// Checks for readiness. The first check that finds both flags up raises
    /// `switched` and asks for the titled reveal; every other check changes
    /// nothing and asks for nothing.
    pub fn maybe_switch(&mut self) -> (action: GateAction)
        ensures
            final(self)@ == old(self)@.checked(),
            action == old(self)@.check_action(),
    {
        if self.switched {
            return GateAction::Stay;
        }
        if self.backend_ready && self.frontend_ready {
            self.switched = true;
            GateAction::RevealTitled
        } else {
            GateAction::Stay
        }
    }

    /// Takes one signal and says what the host has to do.
    pub fn handle(&mut self, signal: GateSignal) -> (action: GateAction)
        ensures
            final(self)@ == old(self)@.after(signal),
            action == old(self)@.action(signal),
    {
        proof {
            use_type_invariant(&*self);
        }
        match signal {
            GateSignal::BackendReady => {
                self.backend_ready = true;
                self.maybe_switch()
            },
            GateSignal::FrontendReady => {
                self.frontend_ready = true;
                self.maybe_switch()
            },
            GateSignal::TimeoutElapsed => {
                if self.switched {
                    GateAction::Stay
                } else {
                    self.backend_ready = true;
                    self.frontend_ready = true;
                    self.switched = true;
                    GateAction::RevealUntitled
                }
            },
        }
    }
}

/// Once the reveal has happened it stays: no sequence of signals takes
/// `switched` down again, and none asks for another reveal.
pub proof fn law_switched_never_reverts(flags: GateFlags, signals: Seq<GateSignal>)
    requires
        flags.switched,
    ensures
        flags.after_all(signals).switched,
        flags.reveals(signals) == 0,
    decreases signals.len(),
{
    if signals.len() > 0 {
        law_switched_never_reverts(flags.after(signals[0]), signals.skip(1));
    }
}

/// Raised flags stay raised, and a consistent gate stays consistent,
/// whatever signal arrives.
pub proof fn law_flags_only_rise(flags: GateFlags, signal: GateSignal)
    ensures
        flags.backend_ready ==> flags.after(signal).backend_ready,
        flags.frontend_ready ==> flags.after(signal).frontend_ready,
        flags.switched ==> flags.after(signal).switched,
        flags.consistent() ==> flags.after(signal).consistent(),
        flags.action(signal).is_reveal() <==> !flags.switched && flags.after(signal).switched,
{
}

/// However the signals are ordered and however often each arrives, the
/// host is asked to reveal the main window at most once.
pub proof fn law_reveal_at_most_once(flags: GateFlags, signals: Seq<GateSignal>)
    ensures
        flags.reveals(signals) <= 1,
    decreases signals.len(),
{
    if signals.len() > 0 {
        let next = flags.after(signals[0]);
        if flags.action(signals[0]).is_reveal() {
            law_switched_never_reverts(next, signals.skip(1));
        } else {
            law_reveal_at_most_once(next, signals.skip(1));
        }
    }
}

/// What a sequence of signals must hold for a waiting gate to reveal: the
/// timeout, or a readiness signal for each flag that is still down.
pub open spec fn triggers_reveal(flags: GateFlags, signals: Seq<GateSignal>) -> bool {
    ||| signals.contains(GateSignal::TimeoutElapsed)
    ||| {
        &&& signals.contains(GateSignal::BackendReady) || signals.contains(
            GateSignal::FrontendReady,
        )
        &&& flags.backend_ready || signals.contains(GateSignal::BackendReady)
        &&& flags.frontend_ready || signals.contains(GateSignal::FrontendReady)
    }
}

/// A waiting gate reveals exactly once if the signals hold the timeout or
/// complete both readiness flags, and not at all otherwise; the readiness gate ends up
/// revealed in exactly the first case.
pub proof fn law_reveal_exactly_once(flags: GateFlags, signals: Seq<GateSignal>)
    requires
        !flags.switched,
    ensures
        flags.reveals(signals) == if triggers_reveal(flags, signals) {
            1nat
        } else {
            0nat
        },
        flags.after_all(signals).switched == triggers_reveal(flags, signals),
    decreases signals.len(),
{
    if signals.len() > 0 {
        let first = signals[0];
        let rest = signals.skip(1);
        let next = flags.after(first);
        assert forall|x: GateSignal| signals.contains(x) <==> (x == first || rest.contains(x)) by {
            if signals.contains(x) {
                let i = choose|i: int| 0 <= i < signals.len() && signals[i] == x;
                if i > 0 {
                    assert(rest[i - 1] == x);
                }
            }
            if rest.contains(x) {
                let j = choose|j: int| 0 <= j < rest.len() && rest[j] == x;
                assert(signals[j + 1] == x);
            }
            if x == first {
                assert(signals[0] == x);
            }
        }
        if next.switched {
            law_switched_never_reverts(next, rest);
        } else {
            law_reveal_exactly_once(next, rest);
        }
    }
}

/// From the start, with all three kinds of signal arriving in any order and
/// any number of times, the main window is revealed exactly once.
pub proof fn law_one_shot_reveal(signals: Seq<GateSignal>)
    requires
        signals.contains(GateSignal::TimeoutElapsed) || (signals.contains(GateSignal::BackendReady)
            && signals.contains(GateSignal::FrontendReady)),
    ensures
        GateFlags::initial().reveals(signals) == 1,
        GateFlags::initial().after_all(signals).phase() == GatePhase::Revealed,
{
    law_reveal_exactly_once(GateFlags::initial(), signals);
}

/// The timeout reveals a gate that is still waiting, whatever its readiness
/// flags say, and leaves all three flags up; they stay up under every
/// signal that follows.
pub proof fn law_timeout_fallback(flags: GateFlags, later: Seq<GateSignal>)
    requires
        flags.consistent(),
    ensures
        !flags.switched ==> flags.action(GateSignal::TimeoutElapsed) == GateAction::RevealUntitled,
        flags.switched ==> flags.action(GateSignal::TimeoutElapsed) == GateAction::Stay,
        flags.after(GateSignal::TimeoutElapsed).after_all(later) == (GateFlags {
            backend_ready: true,
            frontend_ready: true,
            switched: true,
        }),
    decreases later.len(),
{
    let up = flags.after(GateSignal::TimeoutElapsed);
    if later.len() > 0 {
        assert(up.after(later[0]) == up);
        assert(up.after(GateSignal::TimeoutElapsed) == up);
        law_timeout_fallback(up, later.skip(1));
    }
}

} // verus!
