use vstd::prelude::*;

verus! {

/// Which stage of its lifecycle a status line is in.
#[derive(Debug, Clone, Copy, PartialEq, Eq, Structural)]
pub enum Phase {
    /// The line is live and may still change.
    Running,
    /// A final success line has been rendered.
    Succeeded,
    /// A final failure line has been rendered.
    Failed,
}

/// The mathematical model of a progress reporter: what the operator sees
/// and how far teardown has gone.
#[verifier::ext_equal]
pub ghost struct ReporterState {
    /// The label currently displayed.
    pub label: Seq<char>,
    /// Whether the line is live or has reached a terminal outcome.
    pub phase: Phase,
    /// Whether the animation ticker is still scheduled.
    pub ticking: bool,
    /// How many times `stop` has been called.
    pub stops: nat,
}

/// The state a reporter starts in: displaying `label`, live, ticking,
/// never stopped.
pub open spec fn start_state(label: Seq<char>) -> ReporterState {
    ReporterState { label, phase: Phase::Running, ticking: true, stops: 0 }
}

/// Replacing the displayed label changes nothing else.
pub open spec fn update_state(s: ReporterState, label: Seq<char>) -> ReporterState {
    ReporterState { label, ..s }
}

/// A terminal success line: the label is replaced and the animation ends.
pub open spec fn succeed_state(s: ReporterState, label: Seq<char>) -> ReporterState {
    ReporterState { label, phase: Phase::Succeeded, ticking: false, ..s }
}

/// A terminal failure line: the label is replaced and the animation ends.
pub open spec fn fail_state(s: ReporterState, label: Seq<char>) -> ReporterState {
    ReporterState { label, phase: Phase::Failed, ticking: false, ..s }
}

/// Teardown: the ticker is stopped (idempotently) and the call is counted;
/// the displayed label and the phase are untouched.
pub open spec fn stop_state(s: ReporterState) -> ReporterState {
    ReporterState { ticking: false, stops: s.stops + 1, ..s }
}

/// A single animated status line for the operator.
///
/// This is the engine-facing state machine of the reporter; rendering the
/// line on a terminal is left to the surrounding program, which mirrors
/// every transition recorded here.
pub struct Reporter {
    label: String,
    phase: Phase,
    ticking: bool,
    stops: u64,
}

impl View for Reporter {
    type V = ReporterState;

    closed spec fn view(&self) -> ReporterState {
        ReporterState {
            label: self.label@,
            phase: self.phase,
            ticking: self.ticking,
            stops: self.stops as nat,
        }
    }
}

impl Reporter {
    /// Begin a wait cycle displaying `label`.
    pub fn start(label: String) -> (r: Reporter)
        ensures
            r@ == start_state(label@),
    {
        Reporter { label, phase: Phase::Running, ticking: true, stops: 0 }
    }

    /// Replace the displayed label without interrupting the animation.
    pub fn update(&mut self, label: String)
        ensures
            final(self)@ == update_state(old(self)@, label@),
    {
        self.label = label;
    }

    /// End the cycle with a final success line showing `label`.
    pub fn succeed(&mut self, label: String)
        requires
            old(self)@.phase is Running,
        ensures
            final(self)@ == succeed_state(old(self)@, label@),
    {
        self.label = label;
        self.phase = Phase::Succeeded;
        self.ticking = false;
    }

    /// End the cycle with a final failure line showing `label`.
    pub fn fail(&mut self, label: String)
        requires
            old(self)@.phase is Running,
        ensures
            final(self)@ == fail_state(old(self)@, label@),
    {
        self.label = label;
        self.phase = Phase::Failed;
        self.ticking = false;
    }

    /// Tear the reporter down: stop the ticker if it still runs. Safe to
    /// call again after `succeed` or `fail` have already ended the animation.
    pub fn stop(&mut self)
        requires
            old(self)@.stops < u64::MAX,
        ensures
            final(self)@ == stop_state(old(self)@),
    {
        self.ticking = false;
        self.stops = self.stops + 1;
    }

    /// The label currently displayed.
    pub fn label(&self) -> (l: &String)
        ensures
            l@ == self@.label,
    {
        &self.label
    }

    /// The lifecycle stage the line is in.
    pub fn phase(&self) -> (p: Phase)
        ensures
            p == self@.phase,
    {
        self.phase
    }

    /// Whether the line is still live, i.e. no terminal outcome was rendered.
    pub fn is_active(&self) -> (b: bool)
        ensures
            b == (self@.phase is Running),
    {
        match self.phase {
            Phase::Running => true,
            _ => false,
        }
    }

    /// Whether the animation ticker is still scheduled.
    pub fn is_ticking(&self) -> (b: bool)
        ensures
            b == self@.ticking,
    {
        self.ticking
    }

    /// How many times `stop` has been called on this reporter.
    pub fn stop_count(&self) -> (n: u64)
        ensures
            n as nat == self@.stops,
    {
        self.stops
    }
}

/// Updating the displayed label is idempotent: repeating `update` with the
/// same label leaves the displayed state exactly as after the first call.
pub proof fn lemma_update_idempotent(s: ReporterState, label: Seq<char>)
    ensures
        update_state(update_state(s, label), label) == update_state(s, label),
{
    assert(update_state(update_state(s, label), label) =~= update_state(s, label));
}

} // verus!
