//! Laws of the control plane: properties that hold for every state and every
//! message sequence, proved against the transition relation in `control`.

use vstd::prelude::*;
use crate::control::ControlMessage;
use crate::control::ControlState;
use crate::control::Directive;
use crate::control::Key;
use crate::control::spec_run;
use crate::control::spec_step;

verus! {

/// How many repeat workers are live in a given state. The owner of the
/// state keeps workers in lockstep with the armed flag by executing every
/// `SpawnWorker` and `FireStop` directive, so the flag counts the workers.
pub open spec fn live_workers(s: ControlState) -> nat {
    if s.armed {
        1
    } else {
        0
    }
}

/// A queue of nothing but toggle requests.
pub open spec fn toggle_requests(n: nat) -> Seq<ControlMessage> {
    Seq::new(n, |i: int| ControlMessage::ToggleRequested)
}

/// Toggle requests only ever flip the armed flag: after `n` of them the flag
/// has flipped `n mod 2` times and the hotkey and rebind flag are untouched.
pub proof fn lemma_toggles_flip(s: ControlState, n: nat)
    ensures
        ({
            let (s2, ds) = spec_run(s, toggle_requests(n));
            &&& s2.armed == (if n % 2 == 0 {
                s.armed
            } else {
                !s.armed
            })
            &&& s2.hotkey == s.hotkey
            &&& s2.awaiting_rebind == s.awaiting_rebind
        }),
    decreases n,
{
    if n == 0 {
        assert(toggle_requests(0).len() == 0);
    } else {
        let q = toggle_requests(n);
        assert(q[0] == ControlMessage::ToggleRequested);
        assert(q.drop_first() =~= toggle_requests((n - 1) as nat));
        let s1 = spec_step(s, ControlMessage::ToggleRequested).0;
        lemma_toggles_flip(s1, (n - 1) as nat);
    }
}

/// For every sequence of toggle requests processed from a disarmed state,
/// the number of live workers afterwards equals the number of requests
/// modulo two: zero or one.
pub proof fn lemma_toggle_count_parity(s: ControlState, n: nat)
    requires
        !s.armed,
    ensures
        ({
            let (s2, ds) = spec_run(s, toggle_requests(n));
            live_workers(s2) == n % 2
        }),
{
    lemma_toggles_flip(s, n);
}

/// No state whatsoever has more than one live worker.
pub proof fn lemma_at_most_one_worker(s: ControlState)
    ensures
        live_workers(s) <= 1,
{
}

/// While a rebind is pending, the very next observed key — any key, the
/// current hotkey included — becomes the hotkey and clears the pending flag,
/// and never toggles: once the observation and its self-sent follow-up have
/// drained, the armed flag is unchanged and the only directive is the
/// refreshed hotkey label.
pub proof fn lemma_rebind_captures_next_key(s: ControlState, k: Key)
    requires
        s.awaiting_rebind,
    ensures
        ({
            let (s2, ds) = spec_run(s, seq![ControlMessage::KeyObserved(k)]);
            &&& s2.hotkey == Some(k)
            &&& !s2.awaiting_rebind
            &&& s2.armed == s.armed
            &&& ds =~= seq![Directive::ShowHotkey(k)]
        }),
{
    reveal_with_fuel(spec_run, 4);
    let q = seq![ControlMessage::KeyObserved(k)];
    let q1 = q.drop_first().push(ControlMessage::HotkeyBound(k));
    assert(q1 =~= seq![ControlMessage::HotkeyBound(k)]);
    assert(q1.drop_first() =~= Seq::<ControlMessage>::empty());
}

/// While no rebind is pending, observing a key toggles the armed state if
/// and only if the key equals the current hotkey; every other key leaves the
/// state exactly as it was and produces no directive.
pub proof fn lemma_key_toggles_iff_hotkey(s: ControlState, k: Key)
    requires
        !s.awaiting_rebind,
    ensures
        ({
            let (s2, ds) = spec_run(s, seq![ControlMessage::KeyObserved(k)]);
            &&& (s2.armed != s.armed <==> s.hotkey == Some(k))
            &&& s2.hotkey == s.hotkey
            &&& !s2.awaiting_rebind
            &&& (s.hotkey != Some(k) ==> s2 == s && ds =~= Seq::<Directive>::empty())
        }),
{
    reveal_with_fuel(spec_run, 4);
    let q = seq![ControlMessage::KeyObserved(k)];
    if s.hotkey == Some(k) {
        let q1 = q.drop_first().push(ControlMessage::ToggleRequested);
        assert(q1 =~= seq![ControlMessage::ToggleRequested]);
        assert(q1.drop_first() =~= Seq::<ControlMessage>::empty());
    } else {
        assert(q.drop_first() =~= Seq::<ControlMessage>::empty());
    }
}

/// A second rebind request right after a first, with no key observed in
/// between, changes nothing: the plane waits for exactly one key, exactly as
/// after the first request alone.
pub proof fn lemma_rebind_idempotent(s: ControlState)
    ensures
        ({
            let (s1, ds1) = spec_run(s, seq![ControlMessage::RebindRequested]);
            let (s2, ds2) = spec_run(s1, seq![ControlMessage::RebindRequested]);
            &&& s1.awaiting_rebind
            &&& s2 == s1
            &&& ds2 =~= Seq::<Directive>::empty()
        }),
{
    reveal_with_fuel(spec_run, 3);
    let q = seq![ControlMessage::RebindRequested];
    assert(q.drop_first() =~= Seq::<ControlMessage>::empty());
}

} // verus!
