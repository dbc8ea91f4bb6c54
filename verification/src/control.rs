//! The control plane: a single-owner state machine that processes control
//! messages one at a time and answers with directives for its surroundings.

use vstd::prelude::*;

verus! {

/// A physical key, identified by a numeric code. The surrounding program
/// assigns one code per physical key at its boundary; the control plane only
/// ever compares codes for equality.
#[derive(Clone, Copy, PartialEq, Eq, Structural, Debug)]
pub struct Key {
    pub code: u64,
}

/// A message consumed by the control plane. Produced by the user interface,
/// by the global input observer, or by the control plane itself (self-sends).
#[derive(Clone, Copy, PartialEq, Eq, Structural, Debug)]
pub enum ControlMessage {
    /// Ask to flip between armed and disarmed.
    ToggleRequested,
    /// The global observer saw this key pressed.
    KeyObserved(Key),
    /// Ask to capture the next observed key as the new hotkey.
    RebindRequested,
    /// The hotkey is now this key; also triggers a label refresh.
    HotkeyBound(Key),
}

/// An instruction the control plane hands back to its surroundings. The
/// surroundings perform it; the control plane never does I/O itself.
#[derive(Clone, Copy, PartialEq, Eq, Structural, Debug)]
pub enum Directive {
    /// Spawn a repeat worker and keep its stop-signal sender.
    SpawnWorker,
    /// Fire the current worker's stop signal and drop the sender.
    FireStop,
    /// Render this key as the current hotkey.
    ShowHotkey(Key),
    /// Render whether a worker is currently running.
    ShowRunning(bool),
    /// Render a transient, non-fatal notice (a worker failed to start).
    ShowNotice,
}

/// The control plane's private state. Exactly one instance should exist,
/// owned by the single thread that runs the message loop; the invariant that
/// `armed` matches the existence of a live worker handle is kept by that
/// owner executing every `SpawnWorker` and `FireStop` directive it is handed.
#[derive(Clone, Copy, PartialEq, Eq, Debug)]
pub struct ControlState {
    /// Whether a repeat worker is currently running.
    pub armed: bool,
    /// The key that toggles arming, once one has been bound.
    pub hotkey: Option<Key>,
    /// Whether the next observed key is to become the hotkey.
    pub awaiting_rebind: bool,
}

/// One transition of the state machine: the next state, at most one message
/// the control plane sends to itself, and the directives to perform.
pub open spec fn spec_step(s: ControlState, m: ControlMessage) -> (
    ControlState,
    Option<ControlMessage>,
    Seq<Directive>,
) {
    match m {
        ControlMessage::ToggleRequested => if s.armed {
            (
                ControlState { armed: false, ..s },
                None,
                seq![Directive::FireStop, Directive::ShowRunning(false)],
            )
        } else {
            (
                ControlState { armed: true, ..s },
                None,
                seq![Directive::SpawnWorker, Directive::ShowRunning(true)],
            )
        },
        ControlMessage::KeyObserved(k) => if s.awaiting_rebind {
            (
                ControlState { hotkey: Some(k), awaiting_rebind: false, ..s },
                Some(ControlMessage::HotkeyBound(k)),
                Seq::empty(),
            )
        } else if s.hotkey == Some(k) {
            (s, Some(ControlMessage::ToggleRequested), Seq::empty())
        } else {
            (s, None, Seq::empty())
        },
        ControlMessage::RebindRequested => (
            ControlState { awaiting_rebind: true, ..s },
            None,
            Seq::empty(),
        ),
        ControlMessage::HotkeyBound(k) => (
            ControlState { hotkey: Some(k), ..s },
            None,
            seq![Directive::ShowHotkey(k)],
        ),
    }
}

/// Weight of a message, for termination of queue draining: observing a key
/// may requeue one message that itself requeues nothing, every other message
/// requeues nothing, so total weight falls with every message processed.
pub open spec fn msg_weight(m: ControlMessage) -> nat {
    match m {
        ControlMessage::KeyObserved(_) => 2,
        _ => 1,
    }
}

/// Total weight of a queue of messages.
pub open spec fn queue_weight(q: Seq<ControlMessage>) -> nat
    decreases q.len(),
{
    if q.len() == 0 {
        0
    } else {
        msg_weight(q[0]) + queue_weight(q.drop_first())
    }
}

/// Appending a message adds exactly its weight.
pub proof fn lemma_queue_weight_push(q: Seq<ControlMessage>, m: ControlMessage)
    ensures
        queue_weight(q.push(m)) == queue_weight(q) + msg_weight(m),
    decreases q.len(),
{
    if q.len() == 0 {
        assert(q.push(m)[0] == m);
        assert(q.push(m).drop_first() =~= Seq::<ControlMessage>::empty());
        assert(queue_weight(Seq::<ControlMessage>::empty()) == 0);
        assert(queue_weight(q) == 0);
    } else {
        assert(q.push(m)[0] == q[0]);
        assert(q.push(m).drop_first() =~= q.drop_first().push(m));
        lemma_queue_weight_push(q.drop_first(), m);
    }
}

/// Drain a queue of messages, first in first out: process the front message,
/// append its self-sent message (if any) at the back, and collect every
/// directive in order, until the queue is empty. This is the control plane's
/// whole message loop between two moments of quiescence.
pub open spec fn spec_run(s: ControlState, q: Seq<ControlMessage>) -> (
    ControlState,
    Seq<Directive>,
)
    decreases queue_weight(q),
    via spec_run_decreases
{
    if q.len() == 0 {
        (s, Seq::empty())
    } else {
        let (s1, rq, ds) = spec_step(s, q[0]);
        let q1 = match rq {
            Some(m) => q.drop_first().push(m),
            None => q.drop_first(),
        };
        let (s2, ds2) = spec_run(s1, q1);
        (s2, ds + ds2)
    }
}

#[via_fn]
proof fn spec_run_decreases(s: ControlState, q: Seq<ControlMessage>) {
    if q.len() > 0 {
        let (s1, rq, ds) = spec_step(s, q[0]);
        match rq {
            Some(m) => {
                lemma_queue_weight_push(q.drop_first(), m);
                assert(msg_weight(m) == 1);
                assert(msg_weight(q[0]) == 2);
            },
            None => {},
        }
    }
}

impl ControlState {
    /// The startup state: disarmed, no hotkey bound yet, no rebind pending.
    /// The caller binds the default hotkey by sending `HotkeyBound(default)`
    /// as the very first message.
    pub fn new() -> (s: ControlState)
        ensures
            s == (ControlState { armed: false, hotkey: None::<Key>, awaiting_rebind: false }),
    {
        ControlState { armed: false, hotkey: None, awaiting_rebind: false }
    }

    /// Process one message: update the state and report at most one
    /// self-sent message plus the directives to perform, exactly as
    /// `spec_step` lays them down.
    pub fn step(&mut self, m: ControlMessage) -> (r: (Option<ControlMessage>, Vec<Directive>))
        ensures
            ({
                let (s2, rq, ds) = spec_step(*old(self), m);
                *final(self) == s2 && r.0 == rq && r.1@ == ds
            }),
    {
        match m {
            ControlMessage::ToggleRequested => {
                if self.armed {
                    self.armed = false;
                    let mut ds: Vec<Directive> = Vec::new();
                    ds.push(Directive::FireStop);
                    ds.push(Directive::ShowRunning(false));
                    proof {
                        assert(ds@ =~= seq![Directive::FireStop, Directive::ShowRunning(false)]);
                    }
                    (None, ds)
                } else {
                    self.armed = true;
                    let mut ds: Vec<Directive> = Vec::new();
                    ds.push(Directive::SpawnWorker);
                    ds.push(Directive::ShowRunning(true));
                    proof {
                        assert(ds@ =~= seq![Directive::SpawnWorker, Directive::ShowRunning(true)]);
                    }
                    (None, ds)
                }
            },
            ControlMessage::KeyObserved(k) => {
                if self.awaiting_rebind {
                    self.hotkey = Some(k);
                    self.awaiting_rebind = false;
                    (Some(ControlMessage::HotkeyBound(k)), Vec::new())
                } else {
                    let matches_hotkey = match self.hotkey {
                        Some(h) => h == k,
                        None => false,
                    };
                    if matches_hotkey {
                        (Some(ControlMessage::ToggleRequested), Vec::new())
                    } else {
                        (None, Vec::new())
                    }
                }
            },
            ControlMessage::RebindRequested => {
                self.awaiting_rebind = true;
                (None, Vec::new())
            },
            ControlMessage::HotkeyBound(k) => {
                self.hotkey = Some(k);
                let mut ds: Vec<Directive> = Vec::new();
                ds.push(Directive::ShowHotkey(k));
                proof {
                    assert(ds@ =~= seq![Directive::ShowHotkey(k)]);
                }
                (None, ds)
            },
        }
    }

    /// Drain a queue of messages and every self-sent message they cause,
    /// first in first out, and hand back all directives in the order they
    /// were produced, exactly as `spec_run` lays them down. The caller
    /// performs the directives once the plane is quiescent.
    pub fn run(&mut self, q: Vec<ControlMessage>) -> (out: Vec<Directive>)
        ensures
            ({
                let (s2, ds) = spec_run(*old(self), q@);
                *final(self) == s2 && out@ == ds
            }),
        decreases queue_weight(q@),
    {
        let mut q = q;
        let ghost q0 = q@;
        if q.len() == 0 {
            return Vec::new();
        }
        let m = q.remove(0);
        proof {
            assert(q@ =~= q0.drop_first());
        }
        let (rq, mut out) = self.step(m);
        match rq {
            Some(m2) => {
                q.push(m2);
                proof {
                    lemma_queue_weight_push(q0.drop_first(), m2);
                    assert(msg_weight(m2) == 1);
                    assert(msg_weight(m) == 2);
                }
            },
            None => {},
        }
        let mut rest = self.run(q);
        out.append(&mut rest);
        out
    }

    /// Record that executing a `SpawnWorker` directive failed: the toggle to
    /// armed is aborted, everything else is untouched, and the surroundings
    /// are asked to show a transient notice.
    pub fn spawn_failed(&mut self) -> (d: Directive)
        ensures
            *final(self) == (ControlState { armed: false, ..*old(self) }),
            d == Directive::ShowNotice,
    {
        self.armed = false;
        Directive::ShowNotice
    }
}

} // verus!
