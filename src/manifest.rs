use vstd::prelude::*;

use crate::actions::Actions;

verus! {

/// A named group of actions, with an optional guard, labels and dependencies.
pub struct Manifest {
    /// The dotted name; the synthetic root has none.
    pub name: Option<String>,
    /// The directory that relative paths of the manifest are resolved against.
    pub root_dir: Option<String>,
    /// The guard that must hold for the manifest to run.
    pub condition: Option<String>,
    pub labels: Vec<String>,
    /// Names of the manifests that must run first; `./` is relative to this one's dotted prefix.
    pub depends: Vec<String>,
    pub actions: Vec<Actions>,
}

impl Manifest {
    /// The synthetic root: no name and nothing to do.
    pub fn root() -> (r: Manifest)
        ensures
            r.name is None,
            r.root_dir is None,
            r.condition is None,
            r.labels@.len() == 0,
            r.depends@.len() == 0,
            r.actions@.len() == 0,
    {
        Manifest {
            name: None,
            root_dir: None,
            condition: None,
            labels: Vec::new(),
            depends: Vec::new(),
            actions: Vec::new(),
        }
    }

    /// A manifest called `name` with no guard, labels, dependencies or actions.
    pub fn named(name: String) -> (r: Manifest)
        ensures
            r.name == Some(name),
            r.root_dir is None,
            r.condition is None,
            r.labels@.len() == 0,
            r.depends@.len() == 0,
            r.actions@.len() == 0,
    {
        Manifest {
            name: Some(name),
            root_dir: None,
            condition: None,
            labels: Vec::new(),
            depends: Vec::new(),
            actions: Vec::new(),
        }
    }
}

} // verus!
