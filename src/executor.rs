use vstd::prelude::*;
use vstd::string::*;

use crate::actions::{Action, ActionError, Actions};
use crate::atoms::LogLevel;
use crate::contexts::Contexts;
use crate::graph::DependencyGraph;
use crate::contexts::contexts_view;
use crate::guard::{guard_allows, guard_holds};
use crate::manifest::Manifest;
use crate::steps::Step;
use crate::text::str_eq;

verus! {

/// Where a run stands.
#[derive(Clone, Copy, Debug, PartialEq, Eq, Structural)]
pub enum Phase {
    /// About to check the label and guard of the manifest at `position`.
    EnterManifest,
    /// About to plan action `action` of the current manifest, or to leave it.
    PlanAction,
    /// Asking the initializers of step `cursor`, or done with that.
    Filtering,
    /// Waiting for the initializers' verdict on step `cursor`.
    AwaitInitializers,
    /// About to execute surviving step `cursor`, or done with that.
    Running,
    /// Waiting for the execution of surviving step `cursor`.
    AwaitExecution,
    /// Waiting for the finalizers' verdict on surviving step `cursor`.
    AwaitFinalizers,
    /// About to log the action's summary and go on to the next action.
    Summarize,
    /// The run is over.
    Done,
}

/// What the caller reports back after doing what it was asked.
#[derive(Clone, Copy, Debug, PartialEq, Eq, Structural)]
pub enum Event {
    /// Nothing was asked, or the run begins.
    Proceed,
    /// The initializers of the step ran: whether all of them allowed it.
    Initialized(bool),
    /// The step's atom was executed: whether it succeeded.
    Executed(bool),
    /// The finalizers of the step ran: whether all of them allowed going on.
    Finalized(bool),
}

/// What the caller must do next.
#[derive(Clone, Copy, Debug, PartialEq, Eq, Structural)]
pub enum Command {
    /// Nothing outside is needed: call again with `Event::Proceed`.
    Continue,
    /// Run the initializers of `steps[step]`, in order, and report `Initialized`.
    RunInitializers { step: usize },
    /// Execute the atom of `steps[step]` and report `Executed`.
    Execute { step: usize },
    /// Run the finalizers of `steps[step]`, in order, and report `Finalized`.
    RunFinalizers { step: usize },
    /// The run is over.
    Finished { successful: bool },
}

/// A line for the log.
pub struct LogEntry {
    pub level: LogLevel,
    pub message: String,
}

/// Runs manifests in a given order, one action and one step at a time.
pub struct Executor {
    pub manifests: Vec<Manifest>,
    /// Positions in `manifests`, in the order they run.
    pub run: Vec<usize>,
    pub contexts: Contexts,
    /// Plan everything, execute nothing.
    pub dry_run: bool,
    /// Only manifests that carry this label run.
    pub label: Option<String>,
    /// The current manifest is `manifests[run[position]]`.
    pub position: usize,
    /// The current action of the current manifest.
    pub action: usize,
    /// The steps the current action planned.
    pub steps: Vec<Step>,
    /// For each planned step: whether its initializers allowed it.
    pub verdicts: Vec<bool>,
    /// The planned steps that passed their initializers and want to run, in order.
    pub survivors: Vec<usize>,
    pub cursor: usize,
    pub phase: Phase,
    /// No step of the current action may run any more.
    pub halted: bool,
    /// The current manifest has had no failure.
    pub successful: bool,
    /// Some manifest has failed.
    pub failed: bool,
    pub log: Vec<LogEntry>,
}

impl Executor {
    /// The number of actions of the current manifest.
    pub open spec fn action_count(&self) -> int {
        self.manifests@[self.run@[self.position as int] as int].actions@.len() as int
    }

    /// The manifest being run.
    pub open spec fn current_manifest(&self) -> Manifest {
        self.manifests@[self.run@[self.position as int] as int]
    }

    /// The action being run.
    pub open spec fn current_action(&self) -> Actions {
        self.current_manifest().actions@[self.action as int]
    }

    pub open spec fn wf(&self) -> bool {
        &&& forall|i: int| 0 <= i < self.run@.len() ==> #[trigger] self.run@[i] < self.manifests@.len()
        &&& self.position <= self.run@.len()
        &&& !(self.phase is EnterManifest || self.phase is Done) ==> self.position < self.run@.len()
        &&& !(self.phase is EnterManifest || self.phase is Done || self.phase is PlanAction) ==> self.action
            < self.action_count()
        &&& self.phase is PlanAction ==> self.action <= self.action_count()
        &&& self.verdicts@.len() == self.steps@.len()
        &&& self.phase is Filtering ==> self.cursor <= self.steps@.len()
        &&& self.phase is AwaitInitializers ==> self.cursor < self.steps@.len()
        &&& self.phase is Running ==> self.cursor <= self.survivors@.len()
        &&& (self.phase is AwaitExecution || self.phase is AwaitFinalizers) ==> self.cursor
            < self.survivors@.len()
        &&& (self.phase is Running || self.phase is AwaitExecution || self.phase is AwaitFinalizers
            || self.phase is Summarize) ==> forall|i: int|
            0 <= i < self.survivors@.len() ==> #[trigger] self.survivors@[i] < self.steps@.len()
                && self.verdicts@[self.survivors@[i] as int]
        &&& (self.phase is Filtering || self.phase is AwaitInitializers || self.phase is Running
            || self.phase is AwaitExecution || self.phase is AwaitFinalizers) ==> !self.halted
        &&& self.dry_run ==> !(self.phase is AwaitExecution || self.phase is AwaitFinalizers)
    }

    /// An executor at the start of a run over `run`, an order of the graph's manifests.
    pub fn new(graph: DependencyGraph, run: Vec<usize>, contexts: Contexts, dry_run: bool, label: Option<String>) -> (r: Executor)
        requires
            forall|i: int| 0 <= i < run@.len() ==> #[trigger] run@[i] < graph.manifests@.len(),
        ensures
            r.wf(),
            r.manifests@ == graph.manifests@,
            r.run@ == run@,
            r.dry_run == dry_run,
            r.label == label,
            r.position == 0,
            r.phase == Phase::EnterManifest,
            !r.failed,
    {
        Executor {
            manifests: graph.manifests,
            run,
            contexts,
            dry_run,
            label,
            position: 0,
            action: 0,
            steps: Vec::new(),
            verdicts: Vec::new(),
            survivors: Vec::new(),
            cursor: 0,
            phase: Phase::EnterManifest,
            halted: false,
            successful: true,
            failed: false,
            log: Vec::new(),
        }
    }

    fn note(&mut self, level: LogLevel, message: &str)
        ensures
            final(self).manifests == old(self).manifests,
            final(self).run == old(self).run,
            final(self).contexts == old(self).contexts,
            final(self).dry_run == old(self).dry_run,
            final(self).label == old(self).label,
            final(self).position == old(self).position,
            final(self).action == old(self).action,
            final(self).steps == old(self).steps,
            final(self).verdicts == old(self).verdicts,
            final(self).survivors == old(self).survivors,
            final(self).cursor == old(self).cursor,
            final(self).phase == old(self).phase,
            final(self).halted == old(self).halted,
            final(self).successful == old(self).successful,
            final(self).failed == old(self).failed,
    {
        self.log.push(LogEntry { level, message: message.to_string() });
    }
}

/// Whether `labels` holds `label`.
pub fn has_label(labels: &Vec<String>, label: &str) -> (r: bool)
    ensures
        r == exists|i: int| 0 <= i < labels@.len() && #[trigger] labels@[i]@ == label@,
{
    let mut i: usize = 0;
    while i < labels.len()
        invariant
            i <= labels@.len(),
            forall|j: int| 0 <= j < i ==> #[trigger] labels@[j]@ != label@,
        decreases labels@.len() - i,
    {
        if str_eq(labels[i].as_str(), label) {
            return true;
        }
        i = i + 1;
    }
    false
}

/// The planned steps whose initializers allowed them and whose atoms want to run.
pub fn surviving_steps(steps: &Vec<Step>, verdicts: &Vec<bool>) -> (r: Vec<usize>)
    requires
        verdicts@.len() == steps@.len(),
    ensures
        forall|i: int| 0 <= i < r@.len() ==> #[trigger] r@[i] < steps@.len() && verdicts@[r@[i] as int],
        forall|i: int, j: int| 0 <= i < j < r@.len() ==> r@[i] < r@[j],
        forall|k: int| 0 <= k < steps@.len() && verdicts@[k] ==> #[trigger] r@.contains(k as usize),
{
    let mut out: Vec<usize> = Vec::new();
    let mut k: usize = 0;
    while k < steps.len()
        invariant
            verdicts@.len() == steps@.len(),
            k <= steps@.len(),
            forall|i: int| 0 <= i < out@.len() ==> #[trigger] out@[i] < k && verdicts@[out@[i] as int],
            forall|i: int, j: int| 0 <= i < j < out@.len() ==> out@[i] < out@[j],
            forall|m: int| 0 <= m < k && verdicts@[m] ==> #[trigger] out@.contains(m as usize),
        decreases steps@.len() - k,
    {
        if verdicts[k] && steps[k].atom.plan().should_run {
            let ghost before = out@;
            out.push(k);
            proof {
                assert forall|m: int| 0 <= m < k + 1 && verdicts@[m] implies #[trigger] out@.contains(m as usize) by {
                    if m == k {
                        assert(out@[out@.len() - 1] == k);
                    } else {
                        assert(before.contains(m as usize));
                        let w = choose|w: int| 0 <= w < before.len() && before[w] == m as usize;
                        assert(out@[w] == before[w]);
                    }
                }
            }
        }
        k = k + 1;
    }
    out
}

/// A manifest runs when it carries the requested label, if one is requested,
/// and its guard holds, if it has one.
pub open spec fn manifest_selected(m: Manifest, label: Option<String>, c: Contexts) -> bool {
    &&& label matches Some(l) ==> exists|i: int| 0 <= i < m.labels@.len() && #[trigger] m.labels@[i]@ == l@
    &&& m.condition matches Some(cond) ==> guard_holds(cond@, contexts_view(c))
}

/// The two states are within one planned action: nothing was planned between them.
pub open spec fn same_action(a: Executor, b: Executor) -> bool {
    a.position == b.position && a.action == b.action && !(a.phase is PlanAction) && !(a.phase is EnterManifest)
}

/// A list of `n` verdicts, all false.
fn no_verdicts(n: usize) -> (r: Vec<bool>)
    ensures
        r@.len() == n,
        forall|i: int| 0 <= i < n ==> !#[trigger] r@[i],
{
    let mut v: Vec<bool> = Vec::new();
    let mut i: usize = 0;
    while i < n
        invariant
            i <= n,
            v@.len() == i,
            forall|j: int| 0 <= j < i ==> !#[trigger] v@[j],
        decreases n - i,
    {
        v.push(false);
        i = i + 1;
    }
    v
}

impl Executor {
    /// Takes the caller's report on the last command and decides the next one.
    ///
    /// A manifest is skipped when a label is asked for and it lacks it, or when
    /// its guard does not hold. Each action is planned; a planning error marks the
    /// manifest unsuccessful and the run goes on with the next action. Each planned
    /// step is kept when its initializers allow it and its atom wants to run. The
    /// kept steps are executed in order, unless this is a dry run; a failed
    /// execution or a finalizer's veto marks the manifest unsuccessful and ends
    /// the action. After a manifest that was not successful, a run that is not
    /// dry stops.
    pub fn next(&mut self, event: Event) -> (r: Command)
        requires
            old(self).wf(),
        ensures
            final(self).wf(),
            final(self).manifests == old(self).manifests,
            final(self).run == old(self).run,
            final(self).contexts == old(self).contexts,
            final(self).dry_run == old(self).dry_run,
            final(self).label == old(self).label,
            // manifests are taken one after another, in the order of the run
            final(self).position >= old(self).position,
            final(self).position > old(self).position ==> (old(self).phase is EnterManifest
                || old(self).phase is PlanAction),
            // a dry run executes nothing and finalizes nothing
            old(self).dry_run ==> !(r is Execute) && !(r is RunFinalizers),
            // a step runs only when its initializers allowed it, and its action is not halted
            r matches Command::Execute { step } ==> step < final(self).steps@.len()
                && final(self).verdicts@[step as int] && !final(self).halted
                && final(self).phase is AwaitExecution && step == final(self).survivors@[final(self).cursor as int],
            event matches Event::Initialized(b) ==> (old(self).phase is AwaitInitializers ==> (
            final(self).verdicts@[old(self).cursor as int] == b && same_action(*old(self), *final(self)))),
            same_action(*old(self), *final(self)) ==> final(self).steps == old(self).steps && forall|i: int|
                0 <= i < final(self).verdicts@.len() && (i != old(self).cursor || !(old(self).phase is AwaitInitializers))
                    ==> #[trigger] final(self).verdicts@[i] == old(self).verdicts@[i],
            // a finalizer's veto, or a failed execution, halts the action
            old(self).phase is AwaitFinalizers && event == Event::Finalized(false) ==> final(self).halted
                && !final(self).successful && final(self).phase is Summarize && same_action(*old(self), *final(self)),
            old(self).phase is AwaitExecution && event == Event::Executed(false) ==> final(self).halted
                && !final(self).successful && final(self).phase is Summarize && same_action(*old(self), *final(self)),
            same_action(*old(self), *final(self)) && old(self).halted ==> final(self).halted,
            // what the other commands ask for
            r matches Command::RunInitializers { step } ==> step < final(self).steps@.len()
                && final(self).phase is AwaitInitializers && step == final(self).cursor,
            r matches Command::RunFinalizers { step } ==> final(self).phase is AwaitFinalizers
                && step == final(self).survivors@[final(self).cursor as int],
            r matches Command::Finished { successful } ==> final(self).phase is Done && successful
                == !final(self).failed,
            // a failed manifest ends a run that is not dry
            old(self).phase is PlanAction && old(self).action == old(self).action_count() && !old(self).dry_run
                && !old(self).successful ==> final(self).phase is Done && r == (Command::Finished { successful: false }),
            old(self).phase is Done ==> final(self).phase is Done && r == (Command::Finished { successful: !old(self).failed }),
            // a manifest is entered when it is selected, and passed over otherwise
            old(self).phase is EnterManifest && old(self).position < old(self).run@.len() ==> if manifest_selected(
                old(self).manifests@[old(self).run@[old(self).position as int] as int],
                old(self).label,
                old(self).contexts,
            ) {
                final(self).phase is PlanAction && final(self).action == 0 && final(self).position
                    == old(self).position && final(self).successful
            } else {
                final(self).phase is EnterManifest && final(self).position == old(self).position + 1
            },
            old(self).phase is EnterManifest && old(self).position >= old(self).run@.len() ==> final(self).phase is Done
                && r == (Command::Finished { successful: !old(self).failed }),
            // each action is planned: a planning error marks the manifest and moves on
            old(self).phase is PlanAction && old(self).action < old(self).action_count() ==> r == Command::Continue
                && final(self).position == old(self).position && ((final(self).phase is Filtering
                && final(self).action == old(self).action && final(self).cursor == 0 && final(self).successful
                == old(self).successful && (forall|i: int| 0 <= i < final(self).verdicts@.len() ==> !#[trigger] final(self).verdicts@[i])
                && old(self).current_action().planned(old(self).current_manifest(), old(self).contexts, Ok(final(self).steps)))
                || (final(self).phase is PlanAction && final(self).action == old(self).action + 1
                && !final(self).successful && exists|e: ActionError| #[trigger] old(self).current_action().planned(
                old(self).current_manifest(),
                old(self).contexts,
                Err(e),
            ))),
            // only the end of a manifest counts its outcome
            !(old(self).phase is PlanAction && old(self).action == old(self).action_count()) ==> final(self).failed
                == old(self).failed,
            // filtering steps, and finding nothing to do, mark nothing unsuccessful
            old(self).phase is Filtering || old(self).phase is AwaitInitializers ==> final(self).successful
                == old(self).successful,
            // after the last action, the manifest's outcome is counted and the next one comes
            old(self).phase is PlanAction && old(self).action == old(self).action_count() ==> final(self).failed == (
            old(self).failed || !old(self).successful) && (old(self).dry_run || old(self).successful ==> (
            final(self).phase is EnterManifest && final(self).position == old(self).position + 1 && r == Command::Continue)),
            // once every initializer has answered, the allowed steps are kept, in order
            old(self).phase is Filtering && old(self).cursor >= old(self).steps@.len() ==> r == Command::Continue
                && final(self).steps == old(self).steps && final(self).verdicts == old(self).verdicts && if exists|i: int|
                0 <= i < old(self).verdicts@.len() && #[trigger] old(self).verdicts@[i] {
                final(self).phase is Running && final(self).cursor == 0 && final(self).action == old(self).action
                    && (forall|i: int, j: int| 0 <= i < j < final(self).survivors@.len() ==> final(self).survivors@[i]
                    < final(self).survivors@[j]) && forall|k: int|
                    0 <= k < final(self).steps@.len() && final(self).verdicts@[k] ==> #[trigger] final(self).survivors@.contains(k as usize)
            } else {
                final(self).phase is PlanAction && final(self).action == old(self).action + 1
            },
            old(self).phase is Filtering && old(self).cursor < old(self).steps@.len() ==> r == (Command::RunInitializers {
                step: old(self).cursor,
            }),
            // the kept steps run in order; a dry run passes over them
            old(self).phase is Running && old(self).cursor < old(self).survivors@.len() ==> if old(self).dry_run {
                r == Command::Continue && final(self).cursor == old(self).cursor + 1 && final(self).phase is Running
            } else {
                r == (Command::Execute { step: old(self).survivors@[old(self).cursor as int] })
            },
            old(self).phase is Running && old(self).cursor >= old(self).survivors@.len() ==> final(self).phase is Summarize
                && r == Command::Continue,
            old(self).phase is AwaitExecution && event == Event::Executed(true) ==> r == (Command::RunFinalizers {
                step: old(self).survivors@[old(self).cursor as int],
            }),
            old(self).phase is AwaitFinalizers && event == Event::Finalized(true) ==> final(self).phase is Running
                && final(self).cursor == old(self).cursor + 1 && same_action(*old(self), *final(self)),
            // the summary is logged and the next action comes
            old(self).phase is Summarize ==> final(self).phase is PlanAction && final(self).action == old(self).action + 1
                && final(self).position == old(self).position && r == Command::Continue,
    {
        match self.phase {
            Phase::Done => Command::Finished { successful: !self.failed },
            Phase::EnterManifest => {
                if self.position >= self.run.len() {
                    self.phase = Phase::Done;
                    return Command::Finished { successful: !self.failed };
                }
                let mi = self.run[self.position];
                self.successful = true;
                let mut skip = false;
                match &self.label {
                    Some(l) => {
                        if !has_label(&self.manifests[mi].labels, l.as_str()) {
                            skip = true;
                        }
                    },
                    None => {},
                }
                if !skip {
                    match &self.manifests[mi].condition {
                        Some(c) => {
                            if !guard_allows(c.as_str(), &self.contexts) {
                                skip = true;
                            }
                        },
                        None => {},
                    }
                }
                if skip {
                    self.note(LogLevel::Info, "Skipping manifest");
                    self.position = self.position + 1;
                } else {
                    self.action = 0;
                    self.phase = Phase::PlanAction;
                }
                Command::Continue
            },
            Phase::PlanAction => {
                let mi = self.run[self.position];
                if self.action < self.manifests[mi].actions.len() {
                    let planned = self.manifests[mi].actions[self.action].plan(&self.manifests[mi], &self.contexts);
                    let ghost result = planned;
                    match planned {
                        Err(e) => {
                            assert(self.current_action().planned(self.current_manifest(), self.contexts, Err(e)));
                            self.note(LogLevel::Info, "Action failed to get plan");
                            self.successful = false;
                            let count = self.manifests[mi].actions.len();
                            assert(self.action < count);
                            self.action = self.action + 1;
                        },
                        Ok(steps) => {
                            let n = steps.len();
                            assert(result == Ok::<Vec<Step>, ActionError>(steps));
                            self.steps = steps;
                            self.verdicts = no_verdicts(n);
                            self.survivors = Vec::new();
                            self.cursor = 0;
                            self.halted = false;
                            self.phase = Phase::Filtering;
                        },
                    }
                    Command::Continue
                } else {
                    if !self.successful {
                        self.failed = true;
                        if !self.dry_run {
                            self.note(LogLevel::Error, "Failed");
                            self.phase = Phase::Done;
                            return Command::Finished { successful: false };
                        }
                    }
                    let count = self.run.len();
                    assert(self.position < count);
                    self.position = self.position + 1;
                    self.phase = Phase::EnterManifest;
                    Command::Continue
                }
            },
            Phase::Filtering => {
                if self.cursor < self.steps.len() {
                    self.phase = Phase::AwaitInitializers;
                    Command::RunInitializers { step: self.cursor }
                } else {
                    let kept = surviving_steps(&self.steps, &self.verdicts);
                    proof {
                        if kept@.len() == 0 {
                            assert forall|i: int| 0 <= i < self.verdicts@.len() implies !#[trigger] self.verdicts@[i] by {
                                if self.verdicts@[i] {
                                    assert(kept@.contains(i as usize));
                                }
                            }
                        } else {
                            assert(self.verdicts@[kept@[0] as int]);
                        }
                    }
                    if kept.len() == 0 {
                        self.note(LogLevel::Info, "nothing to be done to reconcile action");
                        let mi = self.run[self.position];
                        let count = self.manifests[mi].actions.len();
                        assert(self.action < count);
                        self.action = self.action + 1;
                        self.phase = Phase::PlanAction;
                    } else {
                        self.survivors = kept;
                        self.cursor = 0;
                        self.phase = Phase::Running;
                    }
                    Command::Continue
                }
            },
            Phase::AwaitInitializers => {
                match event {
                    Event::Initialized(b) => {
                        let count = self.steps.len();
                        self.verdicts.set(self.cursor, b);
                        assert(self.cursor < count);
                        self.cursor = self.cursor + 1;
                        self.phase = Phase::Filtering;
                        Command::Continue
                    },
                    _ => Command::RunInitializers { step: self.cursor },
                }
            },
            Phase::Running => {
                if self.cursor < self.survivors.len() {
                    if self.dry_run {
                        self.cursor = self.cursor + 1;
                        Command::Continue
                    } else {
                        self.phase = Phase::AwaitExecution;
                        Command::Execute { step: self.survivors[self.cursor] }
                    }
                } else {
                    self.phase = Phase::Summarize;
                    Command::Continue
                }
            },
            Phase::AwaitExecution => {
                match event {
                    Event::Executed(true) => {
                        self.phase = Phase::AwaitFinalizers;
                        Command::RunFinalizers { step: self.survivors[self.cursor] }
                    },
                    Event::Executed(false) => {
                        self.note(LogLevel::Info, "Atom failed to execute");
                        self.successful = false;
                        self.halted = true;
                        self.phase = Phase::Summarize;
                        Command::Continue
                    },
                    _ => Command::Execute { step: self.survivors[self.cursor] },
                }
            },
            Phase::AwaitFinalizers => {
                match event {
                    Event::Finalized(true) => {
                        let count = self.survivors.len();
                        assert(self.cursor < count);
                        self.cursor = self.cursor + 1;
                        self.phase = Phase::Running;
                        Command::Continue
                    },
                    Event::Finalized(false) => {
                        self.note(LogLevel::Info, "Finalizers won't allow us to continue with this action");
                        self.successful = false;
                        self.halted = true;
                        self.phase = Phase::Summarize;
                        Command::Continue
                    },
                    _ => Command::RunFinalizers { step: self.survivors[self.cursor] },
                }
            },
            Phase::Summarize => {
                let mi = self.run[self.position];
                let text = self.manifests[mi].actions[self.action].summarize();
                self.log.push(LogEntry { level: LogLevel::Info, message: text });
                let count = self.manifests[mi].actions.len();
                assert(self.action < count);
                self.action = self.action + 1;
                self.phase = Phase::PlanAction;
                Command::Continue
            },
        }
    }
}

impl Executor {
    /// Starts another run over the same manifests, keeping what failed before.
    pub fn restart(&mut self, run: Vec<usize>)
        requires
            old(self).wf(),
            forall|i: int| 0 <= i < run@.len() ==> #[trigger] run@[i] < old(self).manifests@.len(),
        ensures
            final(self).wf(),
            final(self).run@ == run@,
            final(self).manifests == old(self).manifests,
            final(self).dry_run == old(self).dry_run,
            final(self).label == old(self).label,
            final(self).failed == old(self).failed,
            final(self).position == 0,
            final(self).phase == Phase::EnterManifest,
    {
        self.run = run;
        self.position = 0;
        self.phase = Phase::EnterManifest;
    }
}

} // verus!