use vstd::prelude::*;

use crate::privilege::Privilege;

verus! {

/// Settings read at start-up.
pub struct Config {
    /// Where manifests are found; the first one is used.
    pub manifest_paths: Vec<String>,
    /// User-declared variables, offered to guards.
    pub variables: Vec<(String, String)>,
    pub include_variables: Option<Vec<String>>,
    pub disable_update_check: bool,
    /// The elevation helper.
    pub privilege: Privilege,
}

impl Default for Config {
    fn default() -> (r: Config)
        ensures
            r.manifest_paths@.len() == 0,
            r.variables@.len() == 0,
            r.include_variables is None,
            !r.disable_update_check,
            r.privilege == Privilege::Sudo,
    {
        Config {
            manifest_paths: Vec::new(),
            variables: Vec::new(),
            include_variables: None,
            disable_update_check: false,
            privilege: Privilege::Sudo,
        }
    }
}

/// Why an apply cannot start.
#[derive(Clone, Copy, Debug, PartialEq, Eq, Structural)]
pub enum ApplyError {
    /// A manifest was named by a path; only names are accepted.
    PathInManifestList,
    /// The configuration names no manifest location.
    NoManifestPaths,
}

/// The manifest names hold no path separator.
pub open spec fn names_only(names: Seq<String>) -> bool {
    forall|i: int, k: int| 0 <= i < names.len() && 0 <= k < names[i]@.len() ==> #[trigger] names[i]@[k] != '/'
}

/// The location to load manifests from: the first configured one, provided the
/// requested manifests are given by name and not by path.
pub fn manifest_path(config: &Config, names: &Vec<String>) -> (r: Result<String, ApplyError>)
    ensures
        r matches Ok(p) ==> names_only(names@) && config.manifest_paths@.len() > 0 && p
            == config.manifest_paths@[0],
        r == Err::<String, ApplyError>(ApplyError::PathInManifestList) <==> !names_only(names@),
        r == Err::<String, ApplyError>(ApplyError::NoManifestPaths) <==> names_only(names@)
            && config.manifest_paths@.len() == 0,
{
    let mut i: usize = 0;
    while i < names.len()
        invariant
            i <= names@.len(),
            forall|a: int, k: int| 0 <= a < i && 0 <= k < names@[a]@.len() ==> #[trigger] names@[a]@[k] != '/',
        decreases names@.len() - i,
    {
        let chars = crate::text::str_chars(names[i].as_str());
        let mut k: usize = 0;
        while k < chars.len()
            invariant
                i < names@.len(),
                chars@ == names@[i as int]@,
                k <= chars@.len(),
                forall|a: int, k: int| 0 <= a < i && 0 <= k < names@[a]@.len() ==> #[trigger] names@[a]@[k] != '/',
                forall|j: int| 0 <= j < k ==> chars@[j] != '/',
            decreases chars@.len() - k,
        {
            if chars[k] == '/' {
                return Err(ApplyError::PathInManifestList);
            }
            k = k + 1;
        }
        i = i + 1;
    }
    if config.manifest_paths.len() == 0 {
        return Err(ApplyError::NoManifestPaths);
    }
    Ok(config.manifest_paths[0].clone())
}

} // verus!
