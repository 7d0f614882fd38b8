use vstd::prelude::*;
use vstd::string::*;

use crate::actions::{Action, ActionError};
use crate::atoms::{Atom, Exec};
use crate::contexts::Contexts;
use crate::manifest::Manifest;
use crate::steps::Step;

verus! {

/// Copies a directory, resolved against the manifest's directory, to a destination.
pub struct DirectoryCopy {
    pub from: String,
    pub to: String,
}

/// A path is absolute when it starts with a slash.
pub open spec fn is_absolute(p: Seq<char>) -> bool {
    p.len() > 0 && p[0] == '/'
}

/// `p` resolved against the directory `root`: absolute paths, and any path where
/// there is no directory, stay as they are.
pub open spec fn resolve_path(root: Option<Seq<char>>, p: Seq<char>) -> Seq<char> {
    match root {
        None => p,
        Some(r) => if is_absolute(p) {
            p
        } else if r.len() > 0 && r.last() == '/' {
            r + p
        } else {
            r + "/"@ + p
        },
    }
}

/// The source of the copy: when the destination ends with a slash the source
/// gets a trailing `/.`, so that its contents, not the directory, are copied.
pub open spec fn copy_source(root: Option<Seq<char>>, from: Seq<char>, to: Seq<char>) -> Seq<char> {
    if to.len() > 0 && to.last() == '/' {
        resolve_path(root, from) + "/."@
    } else {
        resolve_path(root, from)
    }
}

/// Resolves `p` against the directory `root`.
pub fn resolve(root: &Option<String>, p: &str) -> (r: String)
    ensures
        r@ == resolve_path(
            match root {
                Some(s) => Some(s@),
                None => None,
            },
            p@,
        ),
{
    let n = p.unicode_len();
    match root {
        None => p.to_string(),
        Some(r) => {
            if n > 0 && p.get_char(0) == '/' {
                p.to_string()
            } else {
                let m = r.as_str().unicode_len();
                let mut s = r.clone();
                if !(m > 0 && r.as_str().get_char(m - 1) == '/') {
                    s.append("/");
                }
                s.append(p);
                s
            }
        },
    }
}

/// The position of the last `/` in `s`, if there is one.
pub open spec fn last_slash(s: Seq<char>) -> Option<int>
    decreases s.len(),
{
    if s.len() == 0 {
        None
    } else if s.last() == '/' {
        Some(s.len() - 1)
    } else {
        last_slash(s.drop_last())
    }
}

/// `p` without one trailing slash.
pub open spec fn trim_slash(p: Seq<char>) -> Seq<char> {
    if p.len() > 0 && p.last() == '/' {
        p.drop_last()
    } else {
        p
    }
}

/// The directory that holds `p`: `.` for a bare name, `/` for a name at the root.
pub open spec fn parent_dir(p: Seq<char>) -> Seq<char> {
    let t = trim_slash(p);
    match last_slash(t) {
        None => "."@,
        Some(k) => if k == 0 {
            "/"@
        } else {
            t.subrange(0, k)
        },
    }
}

/// The directory that holds `p`.
pub fn parent_of(p: &str) -> (r: String)
    ensures
        r@ == parent_dir(p@),
{
    let n0 = p.unicode_len();
    let n = if n0 > 0 && p.get_char(n0 - 1) == '/' {
        n0 - 1
    } else {
        n0
    };
    let ghost t = trim_slash(p@);
    assert(t =~= p@.subrange(0, n as int));
    let mut last: Option<usize> = None;
    let mut i: usize = 0;
    while i < n
        invariant
            n <= p@.len(),
            t == p@.subrange(0, n as int),
            i <= n,
            last matches Some(k) ==> k < i,
            last_slash(t.subrange(0, i as int)) == match last {
                Some(k) => Some(k as int),
                None => None::<int>,
            },
        decreases n - i,
    {
        assert(t.subrange(0, i + 1).drop_last() =~= t.subrange(0, i as int));
        if p.get_char(i) == '/' {
            last = Some(i);
        }
        i = i + 1;
    }
    assert(t.subrange(0, n as int) =~= t);
    match last {
        None => String::from_str("."),
        Some(k) => if k == 0 {
            String::from_str("/")
        } else {
            p.substring_char(0, k).to_string()
        },
    }
}

/// An exec atom that runs an unprivileged `command` with `args`.
pub fn plain_exec(command: &str, args: Vec<String>) -> (r: Exec)
    ensures
        r.command@ == command@,
        r.arguments == args,
        r.working_dir is None,
        r.environment@.len() == 0,
        !r.privileged,
        r.privilege_provider@.len() == 0,
{
    let d = Exec::default();
    Exec { command: command.to_string(), arguments: args, ..d }
}

/// Two steps: `mkdir -p` of the destination's parent, then `cp -r <source> <to>`,
/// both unprivileged.
pub open spec fn copies_directory(c: DirectoryCopy, m: Manifest, r: Seq<Step>) -> bool {
    &&& r.len() == 2
    &&& r[0].initializers@.len() == 0 && r[0].finalizers@.len() == 0
    &&& r[1].initializers@.len() == 0 && r[1].finalizers@.len() == 0
    &&& r[0].atom matches Atom::Exec(e) && e.command@ == "mkdir"@ && e.arguments@.len() == 2
        && e.arguments@[0]@ == "-p"@ && e.arguments@[1]@ == parent_dir(c.to@) && !e.privileged
    &&& r[1].atom matches Atom::Exec(e) && e.command@ == "cp"@ && e.arguments@.len() == 3
        && e.arguments@[0]@ == "-r"@ && e.arguments@[1]@ == copy_source(
        match m.root_dir {
            Some(s) => Some(s@),
            None => None,
        },
        c.from@,
        c.to@,
    ) && e.arguments@[2] == c.to && !e.privileged
}

impl DirectoryCopy {
    /// Creates the destination's parent, then copies into the destination recursively.
    pub fn plan_steps(&self, manifest: &Manifest) -> (r: Vec<Step>)
        ensures
            copies_directory(*self, *manifest, r@),
    {
        let mut from = resolve(&manifest.root_dir, self.from.as_str());
        let m = self.to.as_str().unicode_len();
        if m > 0 && self.to.as_str().get_char(m - 1) == '/' {
            from.append("/.");
        }
        let mut mkdir_args: Vec<String> = Vec::new();
        mkdir_args.push(String::from_str("-p"));
        mkdir_args.push(parent_of(self.to.as_str()));
        let mut cp_args: Vec<String> = Vec::new();
        cp_args.push(String::from_str("-r"));
        cp_args.push(from);
        cp_args.push(self.to.clone());
        let mut steps: Vec<Step> = Vec::new();
        steps.push(Step::of_atom(Atom::Exec(plain_exec("mkdir", mkdir_args))));
        steps.push(Step::of_atom(Atom::Exec(plain_exec("cp", cp_args))));
        steps
    }
}

impl Action for DirectoryCopy {
    open spec fn summary(&self) -> Seq<char> {
        "Copying "@ + self.from@ + " to "@ + self.to@
    }

    /// Create the destination's parent, then copy.
    open spec fn planned(&self, m: Manifest, c: Contexts, r: Result<Vec<Step>, ActionError>) -> bool {
        r matches Ok(v) && copies_directory(*self, m, v@)
    }

    fn summarize(&self) -> (r: String) {
        let mut s = String::from_str("Copying ");
        s.append(self.from.as_str());
        s.append(" to ");
        s.append(self.to.as_str());
        s
    }

    fn plan(&self, manifest: &Manifest, _contexts: &Contexts) -> (r: Result<Vec<Step>, ActionError>) {
        Ok(self.plan_steps(manifest))
    }
}

} // verus!
