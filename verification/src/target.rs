//! Log targets: named sinks that count the warnings and errors they
//! receive and support conditional summaries; a list of targets with
//! unique names; and the logger facade over such a list.

use vstd::prelude::*;
use vstd::multiset::Multiset;
use vstd::seq_lib::group_to_multiset_ensures;
use vstd::string::StringExecFns;

use crate::EntryKind;
use crate::entry::{
    spec_entry_render, spec_multi_render, spec_task_render, spec_worst, Entry, MultiEntry, Task,
};
use crate::error::{Error, ErrorKind};

verus! {

/// The level of an inbound record from a generic leveled-logging facility.
#[derive(Copy, Clone, PartialEq, Eq, Structural, Debug, Hash)]
pub enum LogLevel {
    /// An error record; counted like an error entry.
    Error,
    /// A warning record; counted like a warning entry.
    Warn,
    /// An informational record; not counted.
    Info,
    /// A debug record; not counted.
    Debug,
    /// A trace record; not counted.
    Trace,
}

/// How a submission of the given severity changes the warning counter.
pub open spec fn spec_warn_delta(k: EntryKind) -> int {
    if k is Warning {
        1
    } else {
        0
    }
}

/// How a submission of the given severity changes the error counter.
pub open spec fn spec_err_delta(k: EntryKind) -> int {
    if k is Error {
        1
    } else {
        0
    }
}

/// The total warning-counter change of a batch of submissions.
pub open spec fn spec_warns_in(s: Seq<EntryKind>) -> int
    decreases s.len(),
{
    if s.len() == 0 {
        0
    } else {
        spec_warns_in(s.drop_last()) + spec_warn_delta(s.last())
    }
}

/// The total error-counter change of a batch of submissions.
pub open spec fn spec_errs_in(s: Seq<EntryKind>) -> int
    decreases s.len(),
{
    if s.len() == 0 {
        0
    } else {
        spec_errs_in(s.drop_last()) + spec_err_delta(s.last())
    }
}

/// The warning total of a batch is the number of warnings in it, counted
/// as a multiset, and likewise for errors.
pub proof fn lemma_batch_totals(s: Seq<EntryKind>)
    ensures
        spec_warns_in(s) == s.to_multiset().count(EntryKind::Warning),
        spec_errs_in(s) == s.to_multiset().count(EntryKind::Error),
    decreases s.len(),
{
    broadcast use group_to_multiset_ensures;

    if s.len() == 0 {
        assert(s.to_multiset() =~= Multiset::<EntryKind>::empty());
    } else {
        lemma_batch_totals(s.drop_last());
        assert(s =~= s.drop_last().push(s.last()));
        assert(s.drop_last().push(s.last()).to_multiset() =~= s.drop_last().to_multiset().insert(
            s.last(),
        ));
    }
}

/// Counter totals do not depend on the order of submissions: two batches
/// holding the same submissions, however interleaved, change the counters
/// by the same amounts.
pub proof fn lemma_counts_order_independent(s1: Seq<EntryKind>, s2: Seq<EntryKind>)
    requires
        s1.to_multiset() == s2.to_multiset(),
    ensures
        spec_warns_in(s1) == spec_warns_in(s2),
        spec_errs_in(s1) == spec_errs_in(s2),
{
    lemma_batch_totals(s1);
    lemma_batch_totals(s2);
}

/// The target state after a batch of submissions, one
/// [`Target::log_entry`]-counting step per element, in order.
pub open spec fn spec_apply_batch(t: Target, s: Seq<EntryKind>) -> Target
    decreases s.len(),
{
    if s.len() == 0 {
        t
    } else {
        let prev = spec_apply_batch(t, s.drop_last());
        Target {
            name: prev.name,
            warnings: (prev.warnings + spec_warn_delta(s.last())) as usize,
            errors: (prev.errors + spec_err_delta(s.last())) as usize,
        }
    }
}

/// A prefix of a batch never counts more than the whole batch.
proof fn lemma_batch_prefix_bounds(s: Seq<EntryKind>)
    ensures
        s.len() > 0 ==> spec_warns_in(s.drop_last()) <= spec_warns_in(s),
        s.len() > 0 ==> spec_errs_in(s.drop_last()) <= spec_errs_in(s),
        spec_warns_in(s) >= 0,
        spec_errs_in(s) >= 0,
    decreases s.len(),
{
    if s.len() > 0 {
        lemma_batch_prefix_bounds(s.drop_last());
    }
}

/// Counter totals: submitting a batch of `W` warnings and `E` errors to a
/// target, in any order, yields exactly `W` more warnings and `E` more
/// errors, as long as the totals fit in a machine word.  Together with
/// [`lemma_counts_order_independent`] this says the final counters do not
/// depend on how the submissions were interleaved.
pub proof fn lemma_counter_totals(t: Target, s: Seq<EntryKind>)
    requires
        t.warnings + spec_warns_in(s) <= usize::MAX,
        t.errors + spec_errs_in(s) <= usize::MAX,
    ensures
        spec_apply_batch(t, s).name == t.name,
        spec_apply_batch(t, s).warnings == t.warnings + spec_warns_in(s),
        spec_apply_batch(t, s).errors == t.errors + spec_errs_in(s),
    decreases s.len(),
{
    if s.len() > 0 {
        lemma_batch_prefix_bounds(s);
        lemma_counter_totals(t, s.drop_last());
    }
}

/// Counter monotonicity: counters only ever grow under submissions.
pub proof fn lemma_counter_monotonic(t: Target, s: Seq<EntryKind>)
    requires
        t.warnings + spec_warns_in(s) <= usize::MAX,
        t.errors + spec_errs_in(s) <= usize::MAX,
    ensures
        spec_apply_batch(t, s).warnings >= t.warnings,
        spec_apply_batch(t, s).errors >= t.errors,
{
    lemma_batch_prefix_bounds(s);
    lemma_counter_totals(t, s);
}

/// Log target counting the warnings and errors it receives.
#[derive(Clone, Debug)]
pub struct Target {
    /// The name of the target; the empty string is a valid name.
    pub name: String,
    /// Number of warnings received; never decreases.
    pub warnings: usize,
    /// Number of errors received; never decreases.
    pub errors: usize,
}

impl Target {
    /// Creates a new target with the given name and zeroed counters.
    pub fn new(name: String) -> (t: Target)
        ensures
            t.name == name,
            t.warnings == 0,
            t.errors == 0,
    {
        Target { name, warnings: 0, errors: 0 }
    }

    /// The name of this target.
    pub fn name(&self) -> (r: &str)
        ensures
            r@ == self.name@,
    {
        self.name.as_str()
    }

    /// The number of warnings received by this target.
    pub fn warning_count(&self) -> (r: usize)
        ensures
            r == self.warnings,
    {
        self.warnings
    }

    /// The number of errors received by this target.
    pub fn error_count(&self) -> (r: usize)
        ensures
            r == self.errors,
    {
        self.errors
    }

    /// Counts one submission of the given severity: an error bumps the
    /// error counter, a warning the warning counter, anything else neither.
    fn count(&mut self, kind: EntryKind)
        requires
            old(self).warnings < usize::MAX,
            old(self).errors < usize::MAX,
        ensures
            final(self).name == old(self).name,
            final(self).warnings == old(self).warnings + spec_warn_delta(kind),
            final(self).errors == old(self).errors + spec_err_delta(kind),
    {
        match kind {
            EntryKind::Error => {
                self.errors = self.errors + 1;
            },
            EntryKind::Warning => {
                self.warnings = self.warnings + 1;
            },
            _ => {},
        }
    }

    /// Submits an entry: updates the counters by the entry's severity and
    /// returns the rendered text for the target's sink.
    pub fn log_entry(&mut self, entry: Entry) -> (r: String)
        requires
            entry.wf(),
            old(self).warnings < usize::MAX,
            old(self).errors < usize::MAX,
        ensures
            final(self).name == old(self).name,
            final(self).warnings == old(self).warnings + spec_warn_delta(entry.kind),
            final(self).errors == old(self).errors + spec_err_delta(entry.kind),
            r@ == spec_entry_render(entry, None),
    {
        self.count(entry.kind);
        entry.render()
    }

    /// Submits a group of entries as a unit: the counters change once, by
    /// the group's worst severity, and the whole rendered group is returned
    /// for one write to the sink.
    pub fn log_multi_entry(&mut self, multi: MultiEntry) -> (r: String)
        requires
            multi.wf(),
            old(self).warnings < usize::MAX,
            old(self).errors < usize::MAX,
        ensures
            final(self).name == old(self).name,
            final(self).warnings == old(self).warnings + spec_warn_delta(
                spec_worst(multi.entries@, multi.entries@.len() as int),
            ),
            final(self).errors == old(self).errors + spec_err_delta(
                spec_worst(multi.entries@, multi.entries@.len() as int),
            ),
            r@ == spec_multi_render(multi),
    {
        let worst = multi.worst_severity();
        self.count(worst);
        multi.render()
    }

    /// Submits a task line: no counter changes, only the rendered text.
    pub fn log_inline_entry(&self, entry: Task) -> (r: String)
        ensures
            r@ == spec_task_render(entry),
    {
        entry.render()
    }

    /// Counts an inbound record from a leveled-logging facility: an error
    /// record bumps the error counter, a warning record the warning
    /// counter, any other level neither.  The record's text is written by
    /// the caller, which owns the sink.
    pub fn log_record(&mut self, level: LogLevel)
        requires
            old(self).warnings < usize::MAX,
            old(self).errors < usize::MAX,
        ensures
            final(self).name == old(self).name,
            final(self).warnings == old(self).warnings + (if level is Warn {
                1int
            } else {
                0int
            }),
            final(self).errors == old(self).errors + (if level is Error {
                1int
            } else {
                0int
            }),
    {
        match level {
            LogLevel::Error => {
                self.errors = self.errors + 1;
            },
            LogLevel::Warn => {
                self.warnings = self.warnings + 1;
            },
            _ => {},
        }
    }

    /// Runs `callback` on the warning count exactly when at least one
    /// warning was received; otherwise returns `Ok` untouched.
    pub fn if_warnings<F: FnOnce(usize) -> Result<(), Error>>(&self, callback: F) -> (r: Result<
        (),
        Error,
    >)
        requires
            self.warnings > 0 ==> callback.requires((self.warnings,)),
        ensures
            self.warnings == 0 ==> r is Ok,
            self.warnings > 0 ==> callback.ensures((self.warnings,), r),
    {
        let warning_count = self.warning_count();
        if warning_count > 0 {
            callback(warning_count)
        } else {
            Ok(())
        }
    }

    /// Runs `callback` on the error count exactly when at least one error
    /// was received; otherwise returns `Ok` untouched.
    pub fn if_errors<F: FnOnce(usize) -> Result<(), Error>>(&self, callback: F) -> (r: Result<
        (),
        Error,
    >)
        requires
            self.errors > 0 ==> callback.requires((self.errors,)),
        ensures
            self.errors == 0 ==> r is Ok,
            self.errors > 0 ==> callback.ensures((self.errors,), r),
    {
        let error_count = self.error_count();
        if error_count > 0 {
            callback(error_count)
        } else {
            Ok(())
        }
    }
}

/// A list of log targets with pairwise distinct names.
#[derive(Clone, Debug)]
pub struct TargetList {
    /// The targets, in the order added.
    pub targets: Vec<Target>,
}

impl Default for TargetList {
    /// An empty list.
    fn default() -> (r: Self)
        ensures
            r.targets@.len() == 0,
    {
        TargetList { targets: Vec::new() }
    }
}

impl TargetList {
    /// No two targets in the list share a name.
    pub open spec fn wf(self) -> bool {
        forall|i: int, j: int|
            0 <= i < j < self.targets@.len() ==> (#[trigger] self.targets@[i]).name@ != (
            #[trigger] self.targets@[j]).name@
    }

    /// Creates a new, empty list of targets.
    pub fn new() -> (r: TargetList)
        ensures
            r.targets@.len() == 0,
            r.wf(),
    {
        TargetList { targets: Vec::new() }
    }

    /// Finds the index of the first target with the given name; under the
    /// uniqueness invariant it is the only one.
    pub fn find(&self, name: &str) -> (r: Option<usize>)
        ensures
            match r {
                Some(i) => i < self.targets@.len() && self.targets@[i as int].name@ == name@
                    && (forall|k: int|
                    0 <= k < i ==> (#[trigger] self.targets@[k]).name@ != name@),
                None => forall|i: int|
                    0 <= i < self.targets@.len() ==> (#[trigger] self.targets@[i]).name@ != name@,
            },
    {
        let name_s: String = name.to_owned();
        let mut i: usize = 0;
        while i < self.targets.len()
            invariant
                name_s@ == name@,
                i <= self.targets@.len(),
                forall|k: int|
                    0 <= k < i ==> (#[trigger] self.targets@[k]).name@ != name@,
            decreases self.targets@.len() - i,
        {
            if self.targets[i].name.eq(&name_s) {
                return Some(i);
            }
            i = i + 1;
        }
        None
    }

    /// A shared borrow of the target at the given index.
    pub fn get(&self, index: usize) -> (r: &Target)
        requires
            index < self.targets@.len(),
        ensures
            *r == self.targets@[index as int],
    {
        &self.targets[index]
    }

    /// A mutable borrow of the target at the given index; the list keeps
    /// its other targets and its order.
    pub fn get_mut(&mut self, index: usize) -> (r: &mut Target)
        requires
            index < old(self).targets@.len(),
        ensures
            *r == old(self).targets@[index as int],
            final(self).targets@ == old(self).targets@.update(index as int, *final(r)),
    {
        &mut self.targets[index]
    }

    /// Adds a previously created target to the list; fails without change
    /// when a target with the same name is already present.
    pub fn add_target(&mut self, target: Target) -> (r: Result<(), Error>)
        ensures
            (r is Ok <==> (forall|i: int|
                0 <= i < old(self).targets@.len() ==> (#[trigger] old(
                    self,
                ).targets@[i]).name@ != target.name@)),
            r is Ok ==> final(self).targets@ == old(self).targets@.push(target),
            r is Err ==> *final(self) == *old(self) && (r matches Err(e) && e.kind matches
                ErrorKind::TargetAlreadyExists(n) && n@ == target.name@),
            old(self).wf() ==> final(self).wf(),
    {
        match self.find(target.name.as_str()) {
            Some(i) => {
                let existing = &self.targets[i];
                Err(Error { kind: ErrorKind::TargetAlreadyExists(existing.name.clone()) })
            },
            None => {
                self.targets.push(target);
                Ok(())
            },
        }
    }

    /// Creates a new target with the given name, adds it to the list, and
    /// returns its index; fails without change when the name is taken.
    pub fn create_target(&mut self, name: String) -> (r: Result<usize, Error>)
        ensures
            (r is Ok <==> (forall|i: int|
                0 <= i < old(self).targets@.len() ==> (#[trigger] old(
                    self,
                ).targets@[i]).name@ != name@)),
            r matches Ok(idx) ==> {
                &&& idx == old(self).targets@.len()
                &&& final(self).targets@ == old(self).targets@.push(
                    Target { name, warnings: 0, errors: 0 },
                )
            },
            r is Err ==> *final(self) == *old(self) && (r matches Err(e) && e.kind matches
                ErrorKind::TargetAlreadyExists(n) && n@ == name@),
            old(self).wf() ==> final(self).wf(),
    {
        let idx = self.targets.len();
        let target = Target::new(name);
        match self.add_target(target) {
            Ok(_) => Ok(idx),
            Err(e) => Err(e),
        }
    }

    /// Routes an inbound record from a leveled-logging facility to the
    /// target with the given name: its counters change by the record's
    /// level and the caller writes the text.  Returns whether a target of
    /// that name exists; a record for an unknown name is dropped.
    pub fn log_record(&mut self, name: &str, level: LogLevel) -> (r: bool)
        ensures
            r <==> (exists|i: int|
                0 <= i < old(self).targets@.len() && (#[trigger] old(
                    self,
                ).targets@[i]).name@ == name@),
            !r ==> *final(self) == *old(self),
            r ==> (exists|i: int|
                {
                    &&& 0 <= i < old(self).targets@.len()
                    &&& old(self).targets@[i].name@ == name@
                    &&& (if old(self).targets@[i].warnings < usize::MAX && old(
                        self,
                    ).targets@[i].errors < usize::MAX {
                        final(self).targets@ == old(self).targets@.update(
                            i,
                            Target {
                                name: old(self).targets@[i].name,
                                warnings: (old(self).targets@[i].warnings + (if level is Warn {
                                    1int
                                } else {
                                    0int
                                })) as usize,
                                errors: (old(self).targets@[i].errors + (if level is Error {
                                    1int
                                } else {
                                    0int
                                })) as usize,
                            },
                        )
                    } else {
                        // A saturated counter stays put rather than wrapping.
                        *final(self) == *old(self)
                    })
                }),
            old(self).wf() ==> final(self).wf(),
    {
        match self.find(name) {
            Some(i) => {
                if self.targets[i].warnings < usize::MAX && self.targets[i].errors < usize::MAX {
                    let t = self.get_mut(i);
                    t.log_record(level);
                }
                true
            },
            None => false,
        }
    }
}

/// The logger facade: a list of targets addressed by name.
#[derive(Clone, Debug)]
pub struct PrologueLogger {
    /// The targets known to the logger.
    pub target_list: TargetList,
}

impl PrologueLogger {
    /// Creates a new logger with an empty target list.
    pub fn new() -> (r: PrologueLogger)
        ensures
            r.target_list.targets@.len() == 0,
            r.target_list.wf(),
    {
        PrologueLogger { target_list: TargetList::new() }
    }

    /// Finds the index of the target with the given name.
    pub fn find_target(&self, name: &str) -> (r: Option<usize>)
        ensures
            match r {
                Some(i) => i < self.target_list.targets@.len()
                    && self.target_list.targets@[i as int].name@ == name@,
                None => forall|i: int|
                    0 <= i < self.target_list.targets@.len() ==> (
                    #[trigger] self.target_list.targets@[i]).name@ != name@,
            },
    {
        self.target_list.find(name)
    }

    /// A shared borrow of the logger's target list.
    pub fn target_list(&self) -> (r: &TargetList)
        ensures
            *r == self.target_list,
    {
        &self.target_list
    }

    /// Creates a new target inside the target list and returns its index;
    /// fails without change when the name is taken.
    pub fn create_target(&mut self, name: String) -> (r: Result<usize, Error>)
        ensures
            (r is Ok <==> (forall|i: int|
                0 <= i < old(self).target_list.targets@.len() ==> (#[trigger] old(
                    self,
                ).target_list.targets@[i]).name@ != name@)),
            r matches Ok(idx) ==> {
                &&& idx == old(self).target_list.targets@.len()
                &&& final(self).target_list.targets@ == old(self).target_list.targets@.push(
                    Target { name, warnings: 0, errors: 0 },
                )
            },
            r is Err ==> *final(self) == *old(self),
            old(self).target_list.wf() ==> final(self).target_list.wf(),
    {
        self.target_list.create_target(name)
    }

    /// Adds a previously created target; fails without change when a
    /// target with the same name is already present.
    pub fn add_target(&mut self, target: Target) -> (r: Result<(), Error>)
        ensures
            (r is Ok <==> (forall|i: int|
                0 <= i < old(self).target_list.targets@.len() ==> (#[trigger] old(
                    self,
                ).target_list.targets@[i]).name@ != target.name@)),
            r is Ok ==> final(self).target_list.targets@ == old(self).target_list.targets@.push(
                target,
            ),
            r is Err ==> *final(self) == *old(self),
            old(self).target_list.wf() ==> final(self).target_list.wf(),
    {
        self.target_list.add_target(target)
    }
}

} // verus!
