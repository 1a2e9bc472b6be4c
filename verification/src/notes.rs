//! Countdown timers for timed "note" entities: each note carries the time
//! left until it must be acted on; ticks count the window down, due notes are
//! collected, and the note with the least time left is the most urgent.

use vstd::prelude::*;

verus! {

/// A note's window: how many microseconds are left until it must be clicked.
#[derive(Clone, Copy, PartialEq, Eq, Structural, Debug)]
pub struct TimeUntilClick {
    pub remaining_micros: u64,
}

/// What a window of `remaining` microseconds counts down to after `elapsed`
/// microseconds pass: it loses the elapsed time, and stops at zero.
pub open spec fn counted_down(remaining: u64, elapsed: u64) -> u64 {
    if elapsed >= remaining {
        0u64
    } else {
        (remaining - elapsed) as u64
    }
}

impl TimeUntilClick {
    /// A note due `millis` milliseconds from now.
    pub fn new_millis(millis: u64) -> (t: TimeUntilClick)
        requires
            millis * 1000 <= u64::MAX,
        ensures
            t.remaining_micros == millis * 1000,
    {
        TimeUntilClick { remaining_micros: millis * 1000 }
    }

    /// Counts the window down by `elapsed` microseconds; it stops at zero.
    pub fn count_down(&mut self, elapsed: u64)
        ensures
            final(self).remaining_micros == counted_down(old(self).remaining_micros, elapsed),
    {
        if elapsed >= self.remaining_micros {
            self.remaining_micros = 0;
        } else {
            self.remaining_micros = self.remaining_micros - elapsed;
        }
    }

    /// The window has run out.
    pub fn is_due(&self) -> (r: bool)
        ensures
            r == (self.remaining_micros == 0),
    {
        self.remaining_micros == 0
    }
}

/// Counts every note down by `elapsed` microseconds.
pub fn update_timed(notes: &mut Vec<TimeUntilClick>, elapsed: u64)
    ensures
        final(notes)@.len() == old(notes)@.len(),
        forall|i: int|
            0 <= i < old(notes)@.len() ==> #[trigger] final(notes)@[i].remaining_micros
                == counted_down(old(notes)@[i].remaining_micros, elapsed),
{
    let n = notes.len();
    let mut i: usize = 0;
    while i < n
        invariant
            i <= n,
            n == old(notes)@.len(),
            notes@.len() == n,
            forall|j: int|
                0 <= j < i ==> #[trigger] notes@[j].remaining_micros == counted_down(
                    old(notes)@[j].remaining_micros,
                    elapsed,
                ),
            forall|j: int| i <= j < n ==> #[trigger] notes@[j] == old(notes)@[j],
        decreases n - i,
    {
        let mut note = notes[i];
        note.count_down(elapsed);
        notes.set(i, note);
        i = i + 1;
    }
}

/// The indices of the due notes of `s`, in increasing order.
pub open spec fn due_indices_of(s: Seq<TimeUntilClick>) -> Seq<int>
    decreases s.len(),
{
    if s.len() == 0 {
        Seq::empty()
    } else {
        let rest = due_indices_of(s.drop_last());
        if s.last().remaining_micros == 0 {
            rest.push(s.len() - 1)
        } else {
            rest
        }
    }
}

/// Collects the indices of the notes whose windows have run out, in order,
/// for the caller to despawn.
pub fn due_indices(notes: &Vec<TimeUntilClick>) -> (due: Vec<usize>)
    ensures
        due@.map_values(|u: usize| u as int) == due_indices_of(notes@),
{
    let mut due: Vec<usize> = Vec::new();
    let mut i: usize = 0;
    while i < notes.len()
        invariant
            i <= notes@.len(),
            due@.map_values(|u: usize| u as int) == due_indices_of(notes@.take(i as int)),
        decreases notes@.len() - i,
    {
        proof {
            assert(notes@.take(i + 1).drop_last() =~= notes@.take(i as int));
            assert(notes@.take(i + 1).last() == notes@[i as int]);
        }
        if notes[i].remaining_micros == 0 {
            let ghost old_due = due@;
            due.push(i);
            proof {
                assert(due@.map_values(|u: usize| u as int) =~= old_due.map_values(
                    |u: usize| u as int,
                ).push(i as int));
            }
        }
        i = i + 1;
    }
    proof {
        assert(notes@.take(notes@.len() as int) =~= notes@);
    }
    due
}

/// The most urgent note: the index of the first note with the least time
/// left, or `None` when there are no notes.
pub fn most_urgent(notes: &Vec<TimeUntilClick>) -> (r: Option<usize>)
    ensures
        r is None <==> notes@.len() == 0,
        match r {
            Some(m) => 0 <= m < notes@.len() && (forall|i: int|
                0 <= i < notes@.len() ==> notes@[m as int].remaining_micros
                    <= #[trigger] notes@[i].remaining_micros) && (forall|i: int|
                0 <= i < m ==> notes@[m as int].remaining_micros
                    < #[trigger] notes@[i].remaining_micros),
            None => true,
        },
{
    if notes.len() == 0 {
        return None;
    }
    let mut best: usize = 0;
    let mut i: usize = 1;
    while i < notes.len()
        invariant
            0 <= best < i <= notes@.len(),
            forall|j: int|
                0 <= j < i ==> notes@[best as int].remaining_micros
                    <= #[trigger] notes@[j].remaining_micros,
            forall|j: int|
                0 <= j < best ==> notes@[best as int].remaining_micros
                    < #[trigger] notes@[j].remaining_micros,
        decreases notes@.len() - i,
    {
        if notes[i].remaining_micros < notes[best].remaining_micros {
            best = i;
        }
        i = i + 1;
    }
    Some(best)
}

} // verus!
