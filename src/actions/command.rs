use vstd::prelude::*;
use vstd::string::*;

use crate::actions::{Action, ActionError};
use crate::atoms::{Atom, Exec, ExecStatus};
use crate::contexts::{privilege_or_sudo, privilege_provider_or_sudo, Contexts};
use crate::manifest::Manifest;
use crate::steps::Step;
use crate::atoms::clone_strings;
use crate::text::clone_pairs;

verus! {

/// Runs one command.
pub struct RunCommand {
    pub command: String,
    pub args: Vec<String>,
    pub privileged: bool,
    /// The working directory; the caller's own where there is none.
    pub dir: Option<String>,
    pub env: Vec<(String, String)>,
}

/// The step runs the command as configured, with the contexts' elevation helper.
pub open spec fn runs_command(c: RunCommand, contexts: Contexts, s: Step) -> bool {
    &&& s.initializers@.len() == 0
    &&& s.finalizers@.len() == 0
    &&& s.atom matches Atom::Exec(e)
    &&& e.command == c.command
    &&& e.arguments@ == c.args@
    &&& e.working_dir == c.dir
    &&& e.environment@ == c.env@
    &&& e.privileged == c.privileged
    &&& e.privilege_provider@ == privilege_or_sudo(contexts)
}

impl RunCommand {
    /// The exec atom that runs the command.
    pub fn exec_atom(&self, contexts: &Contexts) -> (r: Exec)
        ensures
            r.command == self.command,
            r.arguments@ == self.args@,
            r.working_dir == self.dir,
            r.environment@ == self.env@,
            r.privileged == self.privileged,
            r.privilege_provider@ == privilege_or_sudo(*contexts),
    {
        Exec {
            command: self.command.clone(),
            arguments: clone_strings(&self.args),
            working_dir: self.dir.clone(),
            environment: clone_pairs(&self.env),
            privileged: self.privileged,
            privilege_provider: privilege_provider_or_sudo(contexts),
            status: ExecStatus::default(),
        }
    }

    /// One step that runs the command.
    pub fn plan_steps(&self, contexts: &Contexts) -> (r: Vec<Step>)
        ensures
            r@.len() == 1,
            runs_command(*self, *contexts, r@[0]),
    {
        let mut steps: Vec<Step> = Vec::new();
        steps.push(Step::of_atom(Atom::Exec(self.exec_atom(contexts))));
        steps
    }
}

impl Action for RunCommand {
    open spec fn summary(&self) -> Seq<char> {
        "Running command "@ + self.command@
    }

    /// One step that runs the command.
    open spec fn planned(&self, m: Manifest, c: Contexts, r: Result<Vec<Step>, ActionError>) -> bool {
        r matches Ok(v) && v@.len() == 1 && runs_command(*self, c, v@[0])
    }

    fn summarize(&self) -> (r: String) {
        let mut s = String::from_str("Running command ");
        s.append(self.command.as_str());
        s
    }

    fn plan(&self, _manifest: &Manifest, contexts: &Contexts) -> (r: Result<Vec<Step>, ActionError>) {
        Ok(self.plan_steps(contexts))
    }
}

} // verus!
