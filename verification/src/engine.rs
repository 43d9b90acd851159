use crate::msg::{is_terminal, Msg, Verdict};
use crate::reporter::{
    fail_state, start_state, stop_state, succeed_state, update_state, Reporter, ReporterState,
};
use vstd::prelude::*;

verus! {

/// What one poll produced, at the spec level: `None` when the poll timed
/// out without an event, otherwise the verdict the condition gave.
pub open spec fn poll_verdict(p: Option<Msg>) -> Option<Verdict> {
    match p {
        Option::Some(m) => Option::Some(m@),
        Option::None => Option::None,
    }
}

/// The whole poll sequence, at the spec level.
pub open spec fn poll_verdicts(s: Seq<Option<Msg>>) -> Seq<Option<Verdict>> {
    s.map_values(|p: Option<Msg>| poll_verdict(p))
}

/// A poll outcome that ends the wait cycle: an event whose verdict is
/// terminal. A timeout never halts the cycle.
pub open spec fn halting(p: Option<Verdict>) -> bool {
    match p {
        Option::Some(v) => is_terminal(v),
        Option::None => false,
    }
}

/// How one poll outcome moves the reporter: timeouts and `NoUpdate` change
/// nothing, `Progress` replaces the label, `Success` and `Failure` render
/// the terminal line.
pub open spec fn step_state(s: ReporterState, p: Option<Verdict>) -> ReporterState {
    match p {
        Option::None => s,
        Option::Some(Verdict::NoUpdate) => s,
        Option::Some(Verdict::Progress(m)) => update_state(s, m),
        Option::Some(Verdict::Success(m)) => succeed_state(s, m),
        Option::Some(Verdict::Failure(m)) => fail_state(s, m),
    }
}

/// The reporter after a wait cycle over `polls`: outcomes are consumed in
/// order until the first halting one, whose step is the last taken; polls
/// after it are never consulted.
pub open spec fn run_state(s: ReporterState, polls: Seq<Option<Verdict>>) -> ReporterState
    decreases polls.len(),
{
    if polls.len() == 0 {
        s
    } else if halting(polls[0]) {
        step_state(s, polls[0])
    } else {
        run_state(step_state(s, polls[0]), polls.drop_first())
    }
}

/// Whether some poll outcome in the sequence ends the wait cycle.
pub open spec fn halts_within(polls: Seq<Option<Verdict>>) -> bool {
    exists|i: int| 0 <= i < polls.len() && halting(polls[i])
}

/// The position of the first halting poll outcome (the sequence's length
/// if there is none).
pub open spec fn first_halt(polls: Seq<Option<Verdict>>) -> int
    decreases polls.len(),
{
    if polls.len() == 0 {
        0
    } else if halting(polls[0]) {
        0
    } else {
        1 + first_halt(polls.drop_first())
    }
}

/// How many polls one wait cycle consumes: everything up to and including
/// the first halting outcome, or the whole sequence when none halts.
pub open spec fn polls_used(polls: Seq<Option<Verdict>>) -> int {
    if halts_within(polls) {
        first_halt(polls) + 1
    } else {
        polls.len() as int
    }
}

/// Feed one poll outcome to the reporter: dispatch on the verdict and
/// report whether the wait cycle is over.
pub fn step(reporter: &mut Reporter, poll: Option<Msg>) -> (done: bool)
    requires
        old(reporter)@.phase is Running,
    ensures
        final(reporter)@ == step_state(old(reporter)@, poll_verdict(poll)),
        done == halting(poll_verdict(poll)),
{
    match poll {
        Option::None => false,
        Option::Some(Msg::NoUpdate) => false,
        Option::Some(Msg::Progress(m)) => {
            reporter.update(m);
            false
        },
        Option::Some(Msg::Success(m)) => {
            reporter.succeed(m);
            true
        },
        Option::Some(Msg::Failure(m)) => {
            reporter.fail(m);
            true
        },
    }
}

/// What one wait cycle left behind: the reporter after teardown, and how
/// many polls the cycle consumed.
pub struct WaitOutcome {
    /// The reporter, after its terminal line (if any) and its teardown.
    pub reporter: Reporter,
    /// How many poll outcomes were consumed before the cycle ended.
    pub consumed: usize,
}

/// Run one wait cycle over a finite sequence of poll outcomes.
///
/// A fresh reporter starts out displaying `label`; each outcome is fed to
/// it in arrival order until the first terminal verdict, after which no
/// later outcome is consulted. The sequence's end acts as an injected
/// cutoff: a condition that never reports success or failure leaves the
/// reporter live once every poll is consumed. On every path the reporter
/// is torn down exactly once before it is handed back.
pub fn wait_for(label: String, polls: Vec<Option<Msg>>) -> (out: WaitOutcome)
    ensures
        out.reporter@ == stop_state(run_state(start_state(label@), poll_verdicts(polls@))),
        out.consumed == polls_used(poll_verdicts(polls@)),
        out.reporter@.stops == 1,
        !out.reporter@.ticking,
        (out.reporter@.phase is Running) <==> !halts_within(poll_verdicts(polls@)),
{
    let ghost all: Seq<Option<Verdict>> = poll_verdicts(polls@);
    let ghost start = start_state(label@);
    proof {
        assert(all.len() == polls.len());
    }
    let mut rest = polls;
    let mut reporter = Reporter::start(label);
    let mut used: usize = 0;
    let mut done = false;

    while !done && rest.len() > 0
        invariant
            all.len() <= usize::MAX,
            used + rest.len() == all.len(),
            poll_verdicts(rest@) == all.skip(used as int),
            reporter@.stops == 0,
            !done ==> reporter@.phase is Running,
            !done ==> forall|j: int| 0 <= j < used ==> !halting(#[trigger] all[j]),
            !done ==> run_state(start, all) == run_state(reporter@, poll_verdicts(rest@)),
            done ==> run_state(start, all) == reporter@,
            done ==> !(reporter@.phase is Running),
            done ==> used >= 1 && halting(all[used - 1]) && (forall|j: int|
                0 <= j < used - 1 ==> !halting(#[trigger] all[j])),
        decreases rest.len(),
    {
        let ghost rest_v = poll_verdicts(rest@);
        let p = rest.remove(0);
        let ghost pv = poll_verdict(p);
        proof {
            assert(rest_v[0] == pv);
            assert(rest_v[0] == all[used as int]);
            assert(poll_verdicts(rest@) =~= rest_v.drop_first()) by {
                assert forall|k: int| 0 <= k < rest@.len() implies poll_verdicts(rest@)[k]
                    == rest_v.drop_first()[k] by {
                    assert(poll_verdicts(rest@)[k] == poll_verdict(rest@[k]));
                }
            }
            assert(rest_v.drop_first() =~= all.skip(used as int + 1)) by {
                assert forall|k: int| 0 <= k < rest_v.len() - 1 implies rest_v.drop_first()[k]
                    == all.skip(used as int + 1)[k] by {
                    assert(rest_v.drop_first()[k] == rest_v[k + 1]);
                }
            }
        }
        let ghost before = reporter@;
        done = step(&mut reporter, p);
        proof {
            assert(run_state(before, rest_v) == if halting(pv) {
                step_state(before, pv)
            } else {
                run_state(step_state(before, pv), rest_v.drop_first())
            });
        }
        used = used + 1;
    }

    proof {
        if done {
            lemma_first_halt_at(all, used - 1);
        } else {
            assert(rest@.len() == 0);
            assert(poll_verdicts(rest@) =~= Seq::<Option<Verdict>>::empty());
            assert(run_state(reporter@, poll_verdicts(rest@)) == reporter@);
            assert(used == all.len());
            assert(!halts_within(all)) by {
                if halts_within(all) {
                    let i = choose|i: int| 0 <= i < all.len() && halting(all[i]);
                    assert(!halting(all[i]));
                }
            }
        }
    }
    reporter.stop();
    WaitOutcome { reporter, consumed: used }
}

/// A poll outcome that carries no news — a timeout or a `NoUpdate`
/// verdict — leaves the reporter exactly as it was.
pub proof fn lemma_quiet_poll_leaves_state(s: ReporterState, p: Option<Verdict>)
    requires
        !halting(p),
        p matches Option::Some(v) ==> !(v is Progress),
    ensures
        step_state(s, p) == s,
{
}

/// A wait cycle in which every poll times out or yields `NoUpdate` never
/// halts, and leaves the reporter exactly as it started.
pub proof fn lemma_no_update_never_halts(s: ReporterState, polls: Seq<Option<Verdict>>)
    requires
        forall|i: int|
            0 <= i < polls.len() ==> (polls[i] is None || polls[i] == Option::Some(
                Verdict::NoUpdate,
            )),
    ensures
        !halts_within(polls),
        run_state(s, polls) == s,
    decreases polls.len(),
{
    if polls.len() == 0 {
        assert(!halts_within(polls));
    } else {
        assert(polls[0] is None || polls[0] == Option::Some(Verdict::NoUpdate));
        assert(!halting(polls[0]));
        assert(step_state(s, polls[0]) == s);
        assert forall|i: int| 0 <= i < polls.drop_first().len() implies (polls.drop_first()[i]
            is None || polls.drop_first()[i] == Option::Some(Verdict::NoUpdate)) by {
            assert(polls.drop_first()[i] == polls[i + 1]);
        }
        lemma_no_update_never_halts(s, polls.drop_first());
        assert(!halts_within(polls)) by {
            if halts_within(polls) {
                let i = choose|i: int| 0 <= i < polls.len() && halting(polls[i]);
                assert(i != 0);
                assert(polls.drop_first()[i - 1] == polls[i]);
                assert(halts_within(polls.drop_first()));
            }
        }
    }
}

/// `first_halt` indeed names the first halting outcome: if position `i`
/// halts and nothing before it does, the cycle halts there.
proof fn lemma_first_halt_at(polls: Seq<Option<Verdict>>, i: int)
    requires
        0 <= i < polls.len(),
        halting(polls[i]),
        forall|j: int| 0 <= j < i ==> !halting(#[trigger] polls[j]),
    ensures
        halts_within(polls),
        first_halt(polls) == i,
    decreases polls.len(),
{
    assert(halts_within(polls));
    if i > 0 {
        assert(!halting(polls[0]));
        assert(polls.drop_first()[i - 1] == polls[i]);
        assert forall|j: int| 0 <= j < i - 1 implies !halting(#[trigger] polls.drop_first()[j]) by {
            assert(polls.drop_first()[j] == polls[j + 1]);
        }
        lemma_first_halt_at(polls.drop_first(), i - 1);
    }
}

/// When some poll outcome halts the cycle, the cycle ends exactly at the
/// first one: everything before it is non-halting, exactly
/// `first_halt + 1` polls are consumed, outcomes after it are never
/// consulted, and the reporter leaves its live phase.
pub proof fn lemma_halts_at_first_terminal(s: ReporterState, polls: Seq<Option<Verdict>>)
    requires
        s.phase is Running,
        halts_within(polls),
    ensures
        0 <= first_halt(polls) < polls.len(),
        halting(polls[first_halt(polls)]),
        forall|j: int| 0 <= j < first_halt(polls) ==> !halting(#[trigger] polls[j]),
        polls_used(polls) == first_halt(polls) + 1,
        run_state(s, polls) == run_state(s, polls.take(first_halt(polls) + 1)),
        !(run_state(s, polls).phase is Running),
    decreases polls.len(),
{
    let w = choose|i: int| 0 <= i < polls.len() && halting(polls[i]);
    assert(polls.len() > 0);
    if halting(polls[0]) {
        lemma_first_halt_at(polls, 0);
        assert(polls.take(1)[0] == polls[0]);
        assert(run_state(s, polls.take(1)) == step_state(s, polls[0]));
    } else {
        let rest = polls.drop_first();
        let s1 = step_state(s, polls[0]);
        assert(s1.phase is Running);
        assert(w != 0);
        assert(rest[w - 1] == polls[w]);
        assert(halts_within(rest));
        lemma_halts_at_first_terminal(s1, rest);
        let f = first_halt(rest);
        assert forall|j: int| 0 <= j < f + 1 implies !halting(#[trigger] polls[j]) by {
            if j > 0 {
                assert(rest[j - 1] == polls[j]);
            }
        }
        assert(polls[f + 1] == rest[f]);
        lemma_first_halt_at(polls, f + 1);
        let front = polls.take(f + 2);
        assert(front.len() == f + 2);
        assert(front[0] == polls[0]);
        assert(front.drop_first() =~= rest.take(f + 1)) by {
            assert forall|k: int| 0 <= k < f + 1 implies front.drop_first()[k] == rest.take(f + 1)[k]
                by {
                assert(front.drop_first()[k] == polls[k + 1]);
                assert(rest.take(f + 1)[k] == polls[k + 1]);
            }
        }
        assert(run_state(s, front) == run_state(s1, rest.take(f + 1)));
        assert(run_state(s, polls) == run_state(s1, rest));
    }
}

/// When no poll outcome halts the cycle, every poll is consumed and the
/// reporter is still live afterwards.
pub proof fn lemma_no_terminal_keeps_running(s: ReporterState, polls: Seq<Option<Verdict>>)
    requires
        s.phase is Running,
        !halts_within(polls),
    ensures
        polls_used(polls) == polls.len(),
        run_state(s, polls).phase is Running,
    decreases polls.len(),
{
    if polls.len() > 0 {
        assert(!halting(polls[0]));
        let s1 = step_state(s, polls[0]);
        assert(s1.phase is Running);
        let rest = polls.drop_first();
        assert(!halts_within(rest)) by {
            if halts_within(rest) {
                let i = choose|i: int| 0 <= i < rest.len() && halting(rest[i]);
                assert(rest[i] == polls[i + 1]);
                assert(halts_within(polls));
            }
        }
        lemma_no_terminal_keeps_running(s1, rest);
    }
}

} // verus!
