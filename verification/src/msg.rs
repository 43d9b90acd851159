use vstd::prelude::*;

verus! {

/// The verdict a condition reports after inspecting one event.
///
/// Exactly one verdict is produced per delivered event. `Success` and
/// `Failure` are terminal: once one of them is produced, the wait cycle
/// polls no further events.
#[derive(Debug, Clone, PartialEq, Eq)]
pub enum Msg {
    /// The event was irrelevant or insufficient; keep waiting.
    NoUpdate,
    /// The condition is satisfied; end the cycle reporting success.
    Success(String),
    /// Partial progress worth displaying; keep waiting.
    Progress(String),
    /// The condition can no longer be satisfied; end the cycle reporting failure.
    Failure(String),
}

/// A verdict at the spec level, with each message as a sequence of
/// characters.
pub ghost enum Verdict {
    NoUpdate,
    Success(Seq<char>),
    Progress(Seq<char>),
    Failure(Seq<char>),
}

impl View for Msg {
    type V = Verdict;

    open spec fn view(&self) -> Verdict {
        match self {
            Msg::NoUpdate => Verdict::NoUpdate,
            Msg::Success(m) => Verdict::Success(m@),
            Msg::Progress(m) => Verdict::Progress(m@),
            Msg::Failure(m) => Verdict::Failure(m@),
        }
    }
}

/// A terminal verdict ends the wait cycle.
pub open spec fn is_terminal(v: Verdict) -> bool {
    v is Success || v is Failure
}

} // verus!
