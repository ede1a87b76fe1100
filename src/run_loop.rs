//! The decisions of the refresh loop: what to do next, and where a finished
//! step leads. The caller performs each step and reports back.

use vstd::prelude::*;

verus! {

/// The key that ends the dashboard.
pub const QUIT_KEY: char = 'q';

/// Where the loop stands within an iteration.
#[derive(Clone, Copy, Debug, PartialEq, Eq, Structural)]
pub enum Phase {
    Sampling,
    Rendering,
    Polling,
    Pausing,
    Exiting,
}

/// The step the caller is to perform next.
#[derive(Clone, Copy, Debug, PartialEq, Eq, Structural)]
pub enum Action {
    /// Read the metrics source and record the samples.
    Sample,
    /// Draw the current charts and summaries.
    Render,
    /// Wait a bounded time for a key and report it.
    Poll,
    /// Wait out the minimum interval between samples.
    Sleep,
    /// Leave the loop.
    Stop,
}

pub open spec fn action_of(p: Phase) -> Action {
    match p {
        Phase::Sampling => Action::Sample,
        Phase::Rendering => Action::Render,
        Phase::Polling => Action::Poll,
        Phase::Pausing => Action::Sleep,
        Phase::Exiting => Action::Stop,
    }
}

/// The phase after the step of phase `p` was performed; `key` is the key
/// that a poll observed, if any, and is looked at only after a poll.
pub open spec fn next_phase(p: Phase, key: Option<char>) -> Phase {
    match p {
        Phase::Sampling => Phase::Rendering,
        Phase::Rendering => Phase::Polling,
        Phase::Polling => if key == Some(QUIT_KEY) {
            Phase::Exiting
        } else {
            Phase::Pausing
        },
        Phase::Pausing => Phase::Sampling,
        Phase::Exiting => Phase::Exiting,
    }
}

/// The refresh loop: `Running` in any phase but `Exiting`, which is final.
pub struct RunLoop {
    phase: Phase,
}

impl View for RunLoop {
    type V = Phase;

    closed spec fn view(&self) -> Phase {
        self.phase
    }
}

impl RunLoop {
    /// A loop about to take its first sample.
    pub fn new() -> (r: Self)
        ensures
            r@ == Phase::Sampling,
    {
        RunLoop { phase: Phase::Sampling }
    }

    pub fn phase(&self) -> (r: Phase)
        ensures
            r == self@,
    {
        self.phase
    }

    /// The step to perform now.
    pub fn action(&self) -> (r: Action)
        ensures
            r == action_of(self@),
    {
        match self.phase {
            Phase::Sampling => Action::Sample,
            Phase::Rendering => Action::Render,
            Phase::Polling => Action::Poll,
            Phase::Pausing => Action::Sleep,
            Phase::Exiting => Action::Stop,
        }
    }

    /// Records that the current step was performed; after a poll, `key` is
    /// the key read, if one was.
    pub fn complete(&mut self, key: Option<char>)
        ensures
            final(self)@ == next_phase(old(self)@, key),
    {
        self.phase = match self.phase {
            Phase::Sampling => Phase::Rendering,
            Phase::Rendering => Phase::Polling,
            Phase::Polling => match key {
                Some(c) => if c == QUIT_KEY {
                    Phase::Exiting
                } else {
                    Phase::Pausing
                },
                None => Phase::Pausing,
            },
            Phase::Pausing => Phase::Sampling,
            Phase::Exiting => Phase::Exiting,
        };
    }

    pub fn is_running(&self) -> (r: bool)
        ensures
            r == (self@ != Phase::Exiting),
    {
        match self.phase {
            Phase::Exiting => false,
            _ => true,
        }
    }
}

/// The steps a loop starting in phase `p` asks for, taking at most `fuel`
/// steps, when its successive polls observe the keys of `polls` (a poll
/// past the end of `polls` observes none). It ends at the first `Stop`.
pub open spec fn run_trace(p: Phase, polls: Seq<Option<char>>, fuel: nat) -> Seq<Action>
    decreases fuel,
{
    if fuel == 0 {
        Seq::empty()
    } else if action_of(p) == Action::Stop {
        seq![Action::Stop]
    } else if action_of(p) == Action::Poll {
        let key = if polls.len() > 0 {
            polls[0]
        } else {
            None
        };
        let rest = if polls.len() > 0 {
            polls.drop_first()
        } else {
            polls
        };
        seq![Action::Poll] + run_trace(next_phase(p, key), rest, (fuel - 1) as nat)
    } else {
        seq![action_of(p)] + run_trace(next_phase(p, None), polls, (fuel - 1) as nat)
    }
}

/// How many times `a` occurs in `t`.
pub open spec fn count_of(t: Seq<Action>, a: Action) -> nat
    decreases t.len(),
{
    if t.len() == 0 {
        0
    } else {
        count_of(t.drop_first(), a) + if t[0] == a {
            1nat
        } else {
            0nat
        }
    }
}

proof fn lemma_count_concat(x: Seq<Action>, y: Seq<Action>, a: Action)
    ensures
        count_of(x + y, a) == count_of(x, a) + count_of(y, a),
    decreases x.len(),
{
    if x.len() == 0 {
        assert(x + y =~= y);
    } else {
        assert((x + y).drop_first() =~= x.drop_first() + y);
        lemma_count_concat(x.drop_first(), y, a);
    }
}

proof fn lemma_trace_iteration(polls: Seq<Option<char>>, f: nat)
    requires
        polls.len() > 0,
    ensures
        run_trace(Phase::Sampling, polls, f + 4) == seq![Action::Sample, Action::Render, Action::Poll]
            + run_trace(next_phase(Phase::Polling, polls[0]), polls.drop_first(), f + 1),
{
    let t3 = run_trace(next_phase(Phase::Polling, polls[0]), polls.drop_first(), f + 1);
    let t2 = run_trace(Phase::Polling, polls, f + 2);
    let t1 = run_trace(Phase::Rendering, polls, f + 3);
    assert(t2 == seq![Action::Poll] + t3);
    assert(t1 == seq![Action::Render] + t2);
    assert(run_trace(Phase::Sampling, polls, f + 4) == seq![Action::Sample] + t1);
    assert(seq![Action::Sample] + (seq![Action::Render] + (seq![Action::Poll] + t3)) =~= seq![
        Action::Sample,
        Action::Render,
        Action::Poll,
    ] + t3);
}

proof fn lemma_count_head()
    ensures
        count_of(seq![Action::Sample, Action::Render, Action::Poll], Action::Sample) == 1,
        count_of(seq![Action::Sample, Action::Render, Action::Poll], Action::Render) == 1,
        count_of(seq![Action::Sleep], Action::Sample) == 0,
        count_of(seq![Action::Sleep], Action::Render) == 0,
        count_of(seq![Action::Stop], Action::Sample) == 0,
        count_of(seq![Action::Stop], Action::Render) == 0,
{
    let h = seq![Action::Sample, Action::Render, Action::Poll];
    assert(h.drop_first() =~= seq![Action::Render, Action::Poll]);
    assert(h.drop_first().drop_first() =~= seq![Action::Poll]);
    assert(seq![Action::Poll].drop_first() =~= Seq::<Action>::empty());
    assert(seq![Action::Sleep].drop_first() =~= Seq::<Action>::empty());
    assert(seq![Action::Stop].drop_first() =~= Seq::<Action>::empty());
    reveal_with_fuel(count_of, 4);
}

/// When the quit key is first observed by the `k`-th poll, a fresh loop
/// asks for exactly `k` samples and `k` renders, then stops: no sample of
/// iteration `k + 1` is asked for.
pub proof fn lemma_quit_at_iteration(polls: Seq<Option<char>>, k: nat)
    requires
        1 <= k <= polls.len(),
        polls[k - 1] == Some(QUIT_KEY),
        forall|j: int| 0 <= j < k - 1 ==> polls[j] != Some(QUIT_KEY),
    ensures
        run_trace(Phase::Sampling, polls, 4 * k).len() == 4 * k,
        run_trace(Phase::Sampling, polls, 4 * k).last() == Action::Stop,
        count_of(run_trace(Phase::Sampling, polls, 4 * k), Action::Sample) == k,
        count_of(run_trace(Phase::Sampling, polls, 4 * k), Action::Render) == k,
    decreases k,
{
    let rest = polls.drop_first();
    let f = (4 * k - 4) as nat;
    let head = seq![Action::Sample, Action::Render, Action::Poll];
    let t3 = run_trace(next_phase(Phase::Polling, polls[0]), rest, f + 1);
    lemma_trace_iteration(polls, f);
    assert(f + 4 == 4 * k);
    lemma_count_head();
    if k == 1 {
        assert(t3 == seq![Action::Stop]);
    } else {
        let k1 = (k - 1) as nat;
        assert(polls[0] != Some(QUIT_KEY));
        assert forall|j: int| 0 <= j < k1 - 1 implies rest[j] != Some(QUIT_KEY) by {
            assert(rest[j] == polls[j + 1]);
        }
        assert(rest[k1 - 1] == polls[k - 1]);
        lemma_quit_at_iteration(rest, k1);
        let t = run_trace(Phase::Sampling, rest, 4 * k1);
        assert(f == 4 * k1);
        assert(t3 == seq![Action::Sleep] + t);
        lemma_count_concat(seq![Action::Sleep], t, Action::Sample);
        lemma_count_concat(seq![Action::Sleep], t, Action::Render);
    }
    lemma_count_concat(head, t3, Action::Sample);
    lemma_count_concat(head, t3, Action::Render);
}

} // verus!
