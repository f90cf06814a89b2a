//! The run itself, as a state machine: preflight checks first, then the
//! planned writes in their fixed order, stopping at the first failure. The
//! binary performs the outside steps (listing the directory, querying the
//! module list, running each write) and reports each outcome back; every
//! decision in between is made here.

use vstd::prelude::*;

use crate::attributes::build_commands;
use crate::attributes::command_text;
use crate::attributes::write_order;
use crate::errors::Error;
use crate::validate::Config;

verus! {

/// Decides the preflight result from the two read-only checks: a missing
/// attribute directory is reported before a missing kernel module, and the
/// writes may only start when both checks passed.
pub fn preflight_outcome(directory_listable: bool, module_loaded: bool) -> (r: Result<(), Error>)
    ensures
        r == if !directory_listable {
            Err::<(), Error>(Error::MissingAttributeDirectory)
        } else if !module_loaded {
            Err::<(), Error>(Error::MissingKernelModule)
        } else {
            Ok::<(), Error>(())
        },
{
    if !directory_listable {
        Err(Error::MissingAttributeDirectory)
    } else if !module_loaded {
        Err(Error::MissingKernelModule)
    } else {
        Ok(())
    }
}

/// The argument vector that performs one shell command: directly through the
/// shell when the process is already root, through the privilege-escalation
/// wrapper otherwise.
pub fn shell_invocation(is_root: bool, command: &str) -> (r: Vec<String>)
    ensures
        is_root ==> r@.len() == 3 && r@[0]@ == "sh"@ && r@[1]@ == "-c"@ && r@[2]@ == command@,
        !is_root ==> r@.len() == 4 && r@[0]@ == "sudo"@ && r@[1]@ == "sh"@ && r@[2]@ == "-c"@
            && r@[3]@ == command@,
{
    let mut v: Vec<String> = Vec::new();
    if !is_root {
        v.push(String::from_str("sudo"));
    }
    v.push(String::from_str("sh"));
    v.push(String::from_str("-c"));
    v.push(String::from_str(command));
    v
}

/// Where a session stands: the two preflight checks, then the writes by
/// position, then finished or failed.
#[derive(Debug, PartialEq, Eq)]
pub enum Stage {
    CheckingDirectory,
    CheckingModule,
    Writing { next: usize },
    Done,
    Failed { error: Error },
}

/// The outside step a session asks for next.
#[derive(Debug, PartialEq, Eq)]
pub enum Action {
    /// List the driver's attribute directory; success means it is present.
    ListDirectory,
    /// Run the module-list query; success means the module is loaded.
    QueryModule,
    /// Run this shell command, which writes one attribute.
    RunShell(String),
    /// Nothing is left to do: the session is finished or failed.
    Stop,
}

/// One run of the tool over a validated request: holds the planned commands
/// and the stage reached so far.
pub struct Session {
    /// The write commands, one per attribute, in the fixed write order. Fixed
    /// at the start of the run and never revised.
    pub commands: Vec<String>,
    pub stage: Stage,
}

impl Session {
    /// When the session is writing, the position always points at a planned
    /// command; the plan itself fits in memory.
    pub open spec fn wf(self) -> bool {
        self.commands@.len() <= usize::MAX && match self.stage {
            Stage::Writing { next } => next < self.commands@.len(),
            _ => true,
        }
    }

    /// Starts a run for a validated request: the directory check comes first,
    /// and the planned commands follow the fixed write order.
    pub fn new(cfg: &Config) -> (s: Session)
        ensures
            s.wf(),
            s.stage == Stage::CheckingDirectory,
            s.commands@.len() == write_order().len(),
            forall|i: int|
                0 <= i < s.commands@.len() ==> (#[trigger] s.commands@[i])@ == command_text(
                    write_order()[i],
                    *cfg,
                ),
    {
        Session { commands: build_commands(cfg), stage: Stage::CheckingDirectory }
    }

    /// The step the session asks for in its current stage. A write position
    /// past the plan cannot be reached through `new` and `advance`; it asks
    /// for nothing.
    pub open spec fn action_spec(self) -> Action {
        match self.stage {
            Stage::CheckingDirectory => Action::ListDirectory,
            Stage::CheckingModule => Action::QueryModule,
            Stage::Writing { next } => if next < self.commands@.len() {
                Action::RunShell(self.commands@[next as int])
            } else {
                Action::Stop
            },
            Stage::Done => Action::Stop,
            Stage::Failed { .. } => Action::Stop,
        }
    }

    /// Hands out the next outside step to perform; `Stop` once the session is
    /// finished or failed.
    pub fn next_action(&self) -> (a: Action)
        ensures
            a == self.action_spec(),
    {
        match &self.stage {
            Stage::CheckingDirectory => Action::ListDirectory,
            Stage::CheckingModule => Action::QueryModule,
            Stage::Writing { next } => {
                let n = *next;
                if n < self.commands.len() {
                    Action::RunShell(self.commands[n].clone())
                } else {
                    Action::Stop
                }
            },
            Stage::Done => Action::Stop,
            Stage::Failed { .. } => Action::Stop,
        }
    }

    /// The session after the outcome of the current step is known. A failed
    /// directory check, module check or write moves to the failure named
    /// after the stage; a finished or failed session never moves again.
    pub open spec fn step(self, outcome: bool) -> Session {
        match self.stage {
            Stage::CheckingDirectory => if outcome {
                Session { stage: Stage::CheckingModule, ..self }
            } else {
                Session { stage: Stage::Failed { error: Error::MissingAttributeDirectory }, ..self }
            },
            Stage::CheckingModule => if outcome {
                if self.commands@.len() == 0 {
                    Session { stage: Stage::Done, ..self }
                } else {
                    Session { stage: Stage::Writing { next: 0 }, ..self }
                }
            } else {
                Session { stage: Stage::Failed { error: Error::MissingKernelModule }, ..self }
            },
            Stage::Writing { next } => if next >= self.commands@.len() {
                self
            } else if outcome {
                if next + 1 == self.commands@.len() {
                    Session { stage: Stage::Done, ..self }
                } else {
                    Session { stage: Stage::Writing { next: (next + 1) as usize }, ..self }
                }
            } else {
                Session {
                    stage: Stage::Failed {
                        error: Error::ShellExecutionFailed(self.commands@[next as int]),
                    },
                    ..self
                }
            },
            Stage::Done => self,
            Stage::Failed { .. } => self,
        }
    }

    /// Reports the outcome of the step `next_action` asked for and moves the
    /// session on. Writes already issued stay applied: a failure aborts the
    /// rest of the run, it does not compensate what came before.
    pub fn advance(&mut self, outcome: bool)
        ensures
            *final(self) == old(self).step(outcome),
            old(self).wf() ==> final(self).wf(),
    {
        let stage = match &self.stage {
            Stage::CheckingDirectory => {
                if outcome {
                    Stage::CheckingModule
                } else {
                    Stage::Failed { error: Error::MissingAttributeDirectory }
                }
            },
            Stage::CheckingModule => {
                if outcome {
                    if self.commands.len() == 0 {
                        Stage::Done
                    } else {
                        Stage::Writing { next: 0 }
                    }
                } else {
                    Stage::Failed { error: Error::MissingKernelModule }
                }
            },
            Stage::Writing { next } => {
                let n = *next;
                let count = self.commands.len();
                if n >= count {
                    return ;
                }
                if outcome {
                    if n + 1 == count {
                        Stage::Done
                    } else {
                        Stage::Writing { next: n + 1 }
                    }
                } else {
                    Stage::Failed { error: Error::ShellExecutionFailed(self.commands[n].clone()) }
                }
            },
            Stage::Done => {
                return ;
            },
            Stage::Failed { .. } => {
                return ;
            },
        };
        self.stage = stage;
    }

    /// The error of a failed session, for the final report.
    pub fn failure(&self) -> (r: Option<&Error>)
        ensures
            match r {
                Some(e) => self.stage matches Stage::Failed { error } && *e == error,
                None => !(self.stage matches Stage::Failed { .. }),
            },
    {
        match &self.stage {
            Stage::Failed { error } => Some(error),
            _ => None,
        }
    }

    /// Whether the whole run went through.
    pub fn is_done(&self) -> (r: bool)
        ensures
            r == (self.stage matches Stage::Done),
    {
        match &self.stage {
            Stage::Done => true,
            _ => false,
        }
    }
}

/// The session after a whole series of outcomes, applied in order.
pub open spec fn run_events(s: Session, outcomes: Seq<bool>) -> Session
    decreases outcomes.len(),
{
    if outcomes.len() == 0 {
        s
    } else {
        run_events(s.step(outcomes[0]), outcomes.drop_first())
    }
}

/// A series of `n` successful outcomes.
pub open spec fn all_successes(n: nat) -> Seq<bool> {
    Seq::new(n, |i: int| true)
}

/// A failed session never leaves the failure: every later outcome leaves it
/// exactly as it is, so nothing further is issued and the error is kept for
/// the final report.
pub proof fn lemma_failure_is_final(s: Session, outcomes: Seq<bool>)
    requires
        s.stage matches Stage::Failed { .. },
    ensures
        run_events(s, outcomes) == s,
    decreases outcomes.len(),
{
    if outcomes.len() > 0 {
        lemma_failure_is_final(s.step(outcomes[0]), outcomes.drop_first());
    }
}

/// A finished session stays finished.
pub proof fn lemma_done_is_final(s: Session, outcomes: Seq<bool>)
    requires
        s.stage matches Stage::Done,
    ensures
        run_events(s, outcomes) == s,
    decreases outcomes.len(),
{
    if outcomes.len() > 0 {
        lemma_done_is_final(s.step(outcomes[0]), outcomes.drop_first());
    }
}

/// No outcome ever changes the planned commands: a failure aborts the rest of
/// the run, it does not revise the plan or roll anything back.
pub proof fn lemma_plan_is_fixed(s: Session, outcomes: Seq<bool>)
    ensures
        run_events(s, outcomes).commands == s.commands,
    decreases outcomes.len(),
{
    if outcomes.len() > 0 {
        lemma_plan_is_fixed(s.step(outcomes[0]), outcomes.drop_first());
    }
}

/// Running a series of outcomes in two parts is the same as running it whole.
pub proof fn lemma_run_events_append(s: Session, a: Seq<bool>, b: Seq<bool>)
    ensures
        run_events(s, a + b) == run_events(run_events(s, a), b),
    decreases a.len(),
{
    if a.len() == 0 {
        assert(a + b =~= b);
    } else {
        assert((a + b)[0] == a[0]);
        assert((a + b).drop_first() =~= a.drop_first() + b);
        lemma_run_events_append(s.step(a[0]), a.drop_first(), b);
    }
}

/// If the directory check fails, the session fails with
/// `MissingAttributeDirectory`, and whatever outcomes follow, it never asks
/// for a write: zero writes are performed.
pub proof fn lemma_missing_directory_never_writes(s: Session, later: Seq<bool>)
    requires
        s.stage == Stage::CheckingDirectory,
    ensures
        s.step(false).stage == (Stage::Failed { error: Error::MissingAttributeDirectory }),
        forall|k: int|
            0 <= k <= later.len() ==> run_events(s.step(false), later.take(k)).action_spec()
                == Action::Stop,
{
    assert forall|k: int|
        0 <= k <= later.len() implies run_events(s.step(false), later.take(k)).action_spec()
        == Action::Stop by {
        lemma_failure_is_final(s.step(false), later.take(k));
    }
}

/// If the directory is present but the module check fails, the session fails
/// with `MissingKernelModule`, and whatever outcomes follow, it never asks
/// for a write: zero writes are performed.
pub proof fn lemma_missing_module_never_writes(s: Session, later: Seq<bool>)
    requires
        s.stage == Stage::CheckingModule,
    ensures
        s.step(false).stage == (Stage::Failed { error: Error::MissingKernelModule }),
        forall|k: int|
            0 <= k <= later.len() ==> run_events(s.step(false), later.take(k)).action_spec()
                == Action::Stop,
{
    assert forall|k: int|
        0 <= k <= later.len() implies run_events(s.step(false), later.take(k)).action_spec()
        == Action::Stop by {
        lemma_failure_is_final(s.step(false), later.take(k));
    }
}

/// If the write at position `k` fails, the session fails with
/// `ShellExecutionFailed` naming exactly that command; the plan stays as it
/// was (the writes before position `k` are not rolled back), and whatever
/// outcomes follow, no later command is ever issued.
pub proof fn lemma_failed_write_halts(s: Session, k: usize, later: Seq<bool>)
    requires
        s.wf(),
        s.stage == (Stage::Writing { next: k }),
    ensures
        s.step(false).stage == (Stage::Failed {
            error: Error::ShellExecutionFailed(s.commands@[k as int]),
        }),
        run_events(s.step(false), later).commands == s.commands,
        forall|j: int|
            0 <= j <= later.len() ==> run_events(s.step(false), later.take(j)).action_spec()
                == Action::Stop,
{
    lemma_plan_is_fixed(s.step(false), later);
    assert forall|j: int|
        0 <= j <= later.len() implies run_events(s.step(false), later.take(j)).action_spec()
        == Action::Stop by {
        lemma_failure_is_final(s.step(false), later.take(j));
    }
}

proof fn lemma_writing_advances(s: Session, k: usize, j: nat)
    requires
        s.wf(),
        s.stage == (Stage::Writing { next: k }),
        k + j <= s.commands@.len(),
    ensures
        run_events(s, all_successes(j)).commands == s.commands,
        k + j < s.commands@.len() ==> run_events(s, all_successes(j)).stage == (Stage::Writing {
            next: (k + j) as usize,
        }),
        k + j == s.commands@.len() && j > 0 ==> run_events(s, all_successes(j)).stage
            == Stage::Done,
    decreases j,
{
    if j > 0 {
        assert(all_successes(j)[0]);
        assert(all_successes(j).drop_first() =~= all_successes((j - 1) as nat));
        if k + 1 == s.commands@.len() {
            lemma_done_is_final(s.step(true), all_successes((j - 1) as nat));
        } else {
            lemma_writing_advances(s.step(true), (k + 1) as usize, (j - 1) as nat);
        }
    }
}

/// In a run where both checks and every write succeed, the session asks for
/// the planned writes one after another, in the fixed order, and finishes
/// `Done` after the last one.
pub proof fn lemma_successful_run_in_order(s: Session, i: int)
    requires
        s.wf(),
        s.stage == Stage::CheckingDirectory,
        s.commands@.len() > 0,
        0 <= i < s.commands@.len(),
    ensures
        run_events(s, all_successes((i + 2) as nat)).action_spec() == Action::RunShell(
            s.commands@[i],
        ),
        run_events(s, all_successes((s.commands@.len() + 2) as nat)).stage == Stage::Done,
{
    let s1 = s.step(true);
    let s2 = s1.step(true);
    assert(s2.stage == (Stage::Writing { next: 0usize }));
    assert(s2.commands == s.commands);
    let t2 = all_successes(2nat);
    assert(t2.len() == 2 && t2[0] == true);
    assert(run_events(s, t2) == run_events(s1, t2.drop_first()));
    assert(t2.drop_first() =~= all_successes(1nat));
    assert(all_successes(1nat)[0] == true);
    assert(run_events(s1, all_successes(1nat)) == run_events(s2, all_successes(1nat).drop_first()));
    assert(all_successes(1nat).drop_first() =~= all_successes(0nat));
    assert(run_events(s2, all_successes(0nat)) == s2);
    assert(run_events(s, t2) == s2);
    let a = all_successes(i as nat);
    assert(all_successes((i + 2) as nat) =~= t2 + a);
    lemma_run_events_append(s, t2, a);
    lemma_writing_advances(s2, 0, i as nat);
    let w = run_events(s2, a);
    assert(w.commands == s.commands);
    assert(w.stage == (Stage::Writing { next: i as usize }));
    assert(w.action_spec() == Action::RunShell(s.commands@[i]));
    let n = s.commands@.len();
    let b = all_successes(n);
    assert(all_successes((n + 2) as nat) =~= t2 + b);
    lemma_run_events_append(s, t2, b);
    lemma_writing_advances(s2, 0, n);
}

} // verus!
