//! The repeat worker's decisions. A worker runs an unbounded cycle of
//! action-begin, action-end, sleep, then a non-blocking check of its one-shot
//! stop signal. The checks themselves and the decision they force are modeled
//! and verified here; the surrounding program owns the thread, the sleep and
//! the simulated input calls.

use vstd::prelude::*;

verus! {

/// Which physical action a worker repeats.
#[derive(Clone, Copy, PartialEq, Eq, Structural, Debug)]
pub enum ActionKind {
    LeftClick,
    RightClick,
    MiddleClick,
}

/// The parameters a worker is spawned with. A delay of zero is legal and
/// yields a tight loop bounded only by the two simulate-call durations.
#[derive(Clone, Copy, PartialEq, Eq, Structural, Debug)]
pub struct WorkerConfig {
    /// Milliseconds slept after each press/release pair.
    pub delay_millis: u64,
    /// Which action the worker repeats.
    pub action: ActionKind,
}

/// The action offered at a given position of the user interface's action
/// chooser: left, right, middle, in that order; nothing anywhere else.
pub fn action_from_index(ix: i32) -> (r: Option<ActionKind>)
    ensures
        r == (match ix {
            0i32 => Some(ActionKind::LeftClick),
            1i32 => Some(ActionKind::RightClick),
            2i32 => Some(ActionKind::MiddleClick),
            _ => None::<ActionKind>,
        }),
{
    match ix {
        0i32 => Some(ActionKind::LeftClick),
        1i32 => Some(ActionKind::RightClick),
        2i32 => Some(ActionKind::MiddleClick),
        _ => None,
    }
}

/// What one non-blocking poll of the stop signal reports.
#[derive(Clone, Copy, PartialEq, Eq, Structural, Debug)]
pub enum StopCheck {
    /// The signal was fired.
    Fired,
    /// The sending side was dropped without firing; treated like a fired
    /// signal, so abrupt teardown still terminates the worker.
    Closed,
    /// Nothing has arrived yet.
    Pending,
}

/// The worker keeps looping exactly when its stop signal has neither been
/// fired nor closed.
pub open spec fn spec_worker_continues(c: StopCheck) -> bool {
    c is Pending
}

/// The decision taken at each cycle's check-point. Note it depends on the
/// poll alone, never on the configured delay: a zero-delay worker stops just
/// as promptly.
pub fn worker_continues(c: &StopCheck) -> (r: bool)
    ensures
        r == spec_worker_continues(*c),
{
    match c {
        StopCheck::Pending => true,
        _ => false,
    }
}

/// How many full cycles a worker runs when its successive stop-signal polls
/// report `polls`: the position of the first poll that is not `Pending`
/// (counting from one), or nothing if every listed poll is still pending and
/// the worker is therefore still running.
pub open spec fn spec_cycles_until_stop(polls: Seq<StopCheck>) -> Option<nat>
    decreases polls.len(),
{
    if polls.len() == 0 {
        None
    } else if !spec_worker_continues(polls[0]) {
        Some(1)
    } else {
        match spec_cycles_until_stop(polls.drop_first()) {
            Some(c) => Some((c + 1) as nat),
            None => None,
        }
    }
}

/// Replay the worker loop's decisions against a recorded sequence of polls:
/// the worker runs one cycle per poll and exits at the first poll that is not
/// `Pending`.
pub fn cycles_until_stop(polls: &Vec<StopCheck>) -> (n: Option<usize>)
    ensures
        spec_cycles_until_stop(polls@) == (match n {
            Some(c) => Some(c as nat),
            None => None::<nat>,
        }),
{
    let mut i: usize = 0;
    proof {
        assert(polls@.skip(0) =~= polls@);
    }
    while i < polls.len()
        invariant
            0 <= i <= polls@.len(),
            forall|j: int| 0 <= j < i ==> spec_worker_continues(polls@[j]),
            spec_cycles_until_stop(polls@) == (match spec_cycles_until_stop(
                polls@.skip(i as int),
            ) {
                Some(c) => Some((c + i) as nat),
                None => None::<nat>,
            }),
        decreases polls@.len() - i,
    {
        if !worker_continues(&polls[i]) {
            proof {
                assert(polls@.skip(i as int)[0] == polls@[i as int]);
                assert(spec_cycles_until_stop(polls@.skip(i as int)) == Some(1nat));
            }
            return Some(i + 1);
        }
        proof {
            assert(polls@.skip(i as int)[0] == polls@[i as int]);
            assert(polls@.skip(i as int).drop_first() =~= polls@.skip(i as int + 1));
        }
        i = i + 1;
    }
    proof {
        assert(polls@.skip(i as int).len() == 0);
    }
    None
}

/// Once the stop signal is observable — fired, or closed by teardown — the
/// worker never runs past that cycle: it exits at or before the cycle whose
/// check first sees the signal. This holds for every configuration,
/// zero-delay workers included, since the decision never reads the delay.
pub proof fn lemma_stop_is_prompt(polls: Seq<StopCheck>, j: int)
    requires
        0 <= j < polls.len(),
        !spec_worker_continues(polls[j]),
    ensures
        spec_cycles_until_stop(polls) matches Some(c) && c <= j + 1,
    decreases j,
{
    if !spec_worker_continues(polls[0]) {
    } else {
        lemma_stop_is_prompt(polls.drop_first(), j - 1);
    }
}

} // verus!
