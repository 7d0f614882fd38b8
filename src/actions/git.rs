use vstd::prelude::*;
use vstd::string::*;

use crate::actions::{Action, ActionError};
use crate::atoms::Atom;
use crate::contexts::Contexts;
use crate::manifest::Manifest;
use crate::steps::Step;

verus! {

/// Whether gix accepts the text as a git URL; it depends on the text alone.
pub uninterp spec fn gix_url_parses(url: Seq<char>) -> bool;

/// Relies on gix::url::parse: whether the text is a URL that git can clone from.
#[verifier::external_body]
fn git_url_is_valid(url: &str) -> (r: bool)
    ensures
        r == gix_url_parses(url@),
{
    gix::url::parse(url.as_bytes()).is_ok()
}

/// Clones a repository into a directory.
pub struct GitClone {
    pub repo_url: String,
    pub directory: String,
}

/// One step that clones the repository into the directory.
pub open spec fn clones_repository(c: GitClone, r: Seq<Step>) -> bool {
    r.len() == 1 && r[0].initializers@.len() == 0 && r[0].finalizers@.len() == 0 && r[0].atom == (Atom::GitClone {
        repository: c.repo_url,
        directory: c.directory,
    })
}

impl GitClone {
    /// One clone step, or an error when the URL does not parse.
    pub fn plan_steps(&self) -> (r: Result<Vec<Step>, ActionError>)
        ensures
            r is Ok <==> gix_url_parses(self.repo_url@),
            r matches Ok(v) ==> clones_repository(*self, v@),
    {
        if !git_url_is_valid(self.repo_url.as_str()) {
            let mut m = String::from_str("Invalid repository URL: ");
            m.append(self.repo_url.as_str());
            return Err(ActionError { message: m });
        }
        let mut steps: Vec<Step> = Vec::new();
        steps.push(
            Step::of_atom(
                Atom::GitClone { repository: self.repo_url.clone(), directory: self.directory.clone() },
            ),
        );
        Ok(steps)
    }
}

impl Action for GitClone {
    open spec fn summary(&self) -> Seq<char> {
        "Cloning repository "@ + self.repo_url@ + " to "@ + self.directory@
    }

    /// One clone step where the URL parses, an error where it does not.
    open spec fn planned(&self, m: Manifest, c: Contexts, r: Result<Vec<Step>, ActionError>) -> bool {
        &&& r is Ok <==> gix_url_parses(self.repo_url@)
        &&& r matches Ok(v) ==> clones_repository(*self, v@)
    }

    fn summarize(&self) -> (r: String) {
        let mut s = String::from_str("Cloning repository ");
        s.append(self.repo_url.as_str());
        s.append(" to ");
        s.append(self.directory.as_str());
        s
    }

    fn plan(&self, _manifest: &Manifest, _contexts: &Contexts) -> (r: Result<Vec<Step>, ActionError>) {
        self.plan_steps()
    }
}

} // verus!
