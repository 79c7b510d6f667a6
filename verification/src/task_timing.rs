//! The per-thread log of task timings kept by the dispatcher: each task run is
//! recorded with where it was spawned and when it started and ended, and
//! back-to-back runs of tasks spawned at the same place share one record.

use vstd::prelude::*;
use crate::text::str_eq;
use std::collections::VecDeque;

verus! {

/// Where a task was spawned: a source file, line and column.
pub struct TaskLocation {
    pub file: String,
    pub line: u32,
    pub column: u32,
}

/// A location as plain values: the file's characters, the line and the column.
pub open spec fn location_view(l: &TaskLocation) -> (Seq<char>, u32, u32) {
    (l.file@, l.line, l.column)
}

impl TaskLocation {
    /// A copy of the location.
    pub fn duplicate(&self) -> (l: TaskLocation)
        ensures
            location_view(&l) == location_view(self),
    {
        TaskLocation { file: self.file.clone(), line: self.line, column: self.column }
    }

    /// Whether two locations are the same place.
    pub fn same_place(&self, other: &TaskLocation) -> (r: bool)
        ensures
            r == (location_view(self) == location_view(other)),
    {
        self.line == other.line && self.column == other.column && str_eq(
            self.file.as_str(),
            other.file.as_str(),
        )
    }
}

/// One record of the log: where the task was spawned, when its first run began
/// and when the last of the runs it covers ended (none while it runs). `T` is
/// the type of an instant, which the library carries without reading.
pub struct TaskTiming<T> {
    pub location: TaskLocation,
    pub start: T,
    pub end: Option<T>,
}

/// A record as plain values.
pub open spec fn timing_view<T>(t: &TaskTiming<T>) -> ((Seq<char>, u32, u32), T, Option<T>) {
    (location_view(&t.location), t.start, t.end)
}

/// Whether no two neighbouring records name the same place.
pub open spec fn no_adjacent_repeats<T>(s: Seq<((Seq<char>, u32, u32), T, Option<T>)>) -> bool {
    forall|i: int| 0 <= i < s.len() - 1 ==> #[trigger] s[i].0 != s[i + 1].0
}

/// The log of one thread's task runs, oldest first.
pub struct TaskTimingLog<T> {
    timings: VecDeque<TaskTiming<T>>,
}

impl<T> View for TaskTimingLog<T> {
    type V = Seq<((Seq<char>, u32, u32), T, Option<T>)>;

    closed spec fn view(&self) -> Self::V {
        self.timings@.map_values(|t: TaskTiming<T>| timing_view(&t))
    }
}

impl<T> TaskTimingLog<T> {
    #[verifier::type_invariant]
    closed spec fn neighbours_differ(self) -> bool {
        no_adjacent_repeats(self@)
    }

    /// An empty log.
    pub fn new() -> (log: Self)
        ensures
            log@ == Seq::<((Seq<char>, u32, u32), T, Option<T>)>::empty(),
    {
        let log = TaskTimingLog { timings: VecDeque::new() };
        assert(log@ =~= Seq::<((Seq<char>, u32, u32), T, Option<T>)>::empty());
        log
    }

    /// The number of records.
    pub fn len(&self) -> (n: usize)
        ensures
            n == self@.len(),
    {
        self.timings.len()
    }

    /// Records that a task spawned at `location` starts running at `start`:
    /// a new open record, unless the newest record is for the same place, in
    /// which case that record covers this run too and the log is unchanged.
    /// Returns whether a record was added.
    pub fn begin_task(&mut self, location: TaskLocation, start: T) -> (added: bool)
        ensures
            added == !(old(self)@.len() > 0 && old(self)@.last().0 == location_view(&location)),
            added ==> final(self)@ == old(self)@.push((location_view(&location), start, None)),
            !added ==> final(self)@ == old(self)@,
    {
        proof {
            use_type_invariant(&*self);
        }
        let n = self.timings.len();
        if n > 0 {
            let same = self.timings[n - 1].location.same_place(&location);
            proof {
                assert(self@[n - 1] == timing_view(&self.timings@[n - 1]));
            }
            if same {
                return false;
            }
        }
        let ghost before = self@;
        let timing = TaskTiming { location, start, end: None };
        let mut timings = VecDeque::new();
        std::mem::swap(&mut timings, &mut self.timings);
        timings.push_back(timing);
        proof {
            let after = timings@.map_values(|t: TaskTiming<T>| timing_view(&t));
            assert(after =~= before.push((location_view(&timing.location), start, None)));
            assert(no_adjacent_repeats(after)) by {
                assert forall|i: int| 0 <= i < after.len() - 1 implies #[trigger] after[i].0
                    != after[i + 1].0 by {
                    if i < before.len() - 1 {
                        assert(after[i] == before[i]);
                        assert(after[i + 1] == before[i + 1]);
                    }
                }
            }
        }
        self.timings = timings;
        true
    }

    /// Records that the running task ended at `end`: the newest record gets
    /// `end` as its end. An empty log is left as it is.
    pub fn end_task(&mut self, end: T)
        ensures
            old(self)@.len() == 0 ==> final(self)@ == old(self)@,
            old(self)@.len() > 0 ==> final(self)@ == old(self)@.update(
                old(self)@.len() - 1,
                (old(self)@.last().0, old(self)@.last().1, Some(end)),
            ),
    {
        proof {
            use_type_invariant(&*self);
        }
        let n = self.timings.len();
        if n == 0 {
            return;
        }
        let ghost before = self@;
        let mut timings = VecDeque::new();
        std::mem::swap(&mut timings, &mut self.timings);
        let mut last = timings.pop_back().unwrap();
        last.end = Some(end);
        timings.push_back(last);
        proof {
            let after = timings@.map_values(|t: TaskTiming<T>| timing_view(&t));
            assert(after =~= before.update(n - 1, (before.last().0, before.last().1, Some(end))));
            assert(no_adjacent_repeats(after)) by {
                assert forall|i: int| 0 <= i < after.len() - 1 implies #[trigger] after[i].0
                    != after[i + 1].0 by {
                    assert(after[i].0 == before[i].0);
                    assert(after[i + 1].0 == before[i + 1].0);
                }
            }
        }
        self.timings = timings;
    }

    /// The records, oldest first; no two neighbouring records name the same
    /// place.
    pub fn records(&self) -> (r: &VecDeque<TaskTiming<T>>)
        ensures
            r@.map_values(|t: TaskTiming<T>| timing_view(&t)) == self@,
            no_adjacent_repeats(self@),
    {
        proof {
            use_type_invariant(self);
        }
        &self.timings
    }
}

} // verus!
