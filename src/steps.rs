use vstd::prelude::*;

use crate::atoms::Atom;

verus! {

/// Sets environment variables before a step's atom runs.
pub struct SetEnvVars(pub Vec<(String, String)>);

/// Removes environment variables after a step's atom has run.
pub struct RemoveEnvVars(pub Vec<(String, String)>);

/// Runs before an atom and may veto it.
pub enum Initializer {
    SetEnvVars(SetEnvVars),
}

/// Runs after an atom and may stop the rest of its action.
pub enum Finalizer {
    RemoveEnvVars(RemoveEnvVars),
}

/// An atom with the initializers that run before it and the finalizers that run after it.
pub struct Step {
    pub atom: Atom,
    pub initializers: Vec<Initializer>,
    pub finalizers: Vec<Finalizer>,
}

/// The first of `verdicts` that is false vetoes; none at all allows.
pub open spec fn all_allow(verdicts: Seq<bool>) -> bool {
    forall|i: int| 0 <= i < verdicts.len() ==> verdicts[i]
}

impl Step {
    /// A step of one atom with no initializers or finalizers.
    pub fn of_atom(atom: Atom) -> (r: Step)
        ensures
            r.atom == atom,
            r.initializers@.len() == 0,
            r.finalizers@.len() == 0,
    {
        Step { atom, initializers: Vec::new(), finalizers: Vec::new() }
    }

    /// Combines the verdicts of the initializers, taken in order: the first false one vetoes.
    pub fn do_initializers_allow_us_to_run(verdicts: &Vec<bool>) -> (r: bool)
        ensures
            r == all_allow(verdicts@),
    {
        let mut i: usize = 0;
        while i < verdicts.len()
            invariant
                i <= verdicts@.len(),
                forall|j: int| 0 <= j < i ==> verdicts@[j],
            decreases verdicts@.len() - i,
        {
            if !verdicts[i] {
                return false;
            }
            i = i + 1;
        }
        true
    }

    /// Combines the verdicts of the finalizers, taken in order: the first false one stops the action.
    pub fn do_finalizers_allow_us_to_continue(verdicts: &Vec<bool>) -> (r: bool)
        ensures
            r == all_allow(verdicts@),
    {
        Self::do_initializers_allow_us_to_run(verdicts)
    }
}

} // verus!
