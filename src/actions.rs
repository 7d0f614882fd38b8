pub mod command;
pub mod directory;
pub mod git;
pub mod package;
pub mod user;

use vstd::prelude::*;
use vstd::string::*;

use crate::contexts::{contexts_view, Contexts};
use crate::guard::{guard_allows, guard_holds, guard_value};
use crate::manifest::Manifest;
use crate::steps::Step;
use crate::text::str_eq;

use self::command::RunCommand;
use self::directory::DirectoryCopy;
use self::git::GitClone;
use self::package::{PackageInstall, PackageRepository};
use self::user::{GroupAdd, UserAdd, UserAddGroup};

verus! {

/// The output of an action.
pub struct ActionResult {
    pub message: String,
}

/// Why an action could not be planned.
pub struct ActionError {
    pub message: String,
}

/// A high-level intent that expands into steps.
pub trait Action {
    /// The description that `summarize` gives.
    spec fn summary(&self) -> Seq<char>;

    /// `r` is what planning the action in manifest `m` with contexts `c` gives,
    /// for some state of the host where planning consults it.
    spec fn planned(&self, m: Manifest, c: Contexts, r: Result<Vec<Step>, ActionError>) -> bool;

    /// A short description for the log.
    fn summarize(&self) -> (r: String)
        ensures
            r@ == self.summary(),
    ;

    /// The steps that bring the host to the intended state; planning changes nothing.
    fn plan(&self, manifest: &Manifest, contexts: &Contexts) -> (r: Result<Vec<Step>, ActionError>)
        ensures
            self.planned(*manifest, *contexts, r),
    ;
}

/// An alternative to an action, taken when its condition holds.
pub struct Variant<T> {
    pub action: T,
    pub condition: Option<String>,
}

impl<T> Variant<T> {
    pub fn new(action: T, condition: Option<String>) -> (r: Self)
        ensures
            r.action == action,
            r.condition == condition,
    {
        Variant { action, condition }
    }
}

/// An action with an optional condition of its own and alternatives chosen by theirs.
pub struct ConditionalVariantAction<T> {
    pub action: T,
    pub condition: Option<String>,
    pub variants: Vec<Variant<T>>,
}

/// What a conditional action comes to in given contexts.
#[derive(Clone, Copy, Debug, PartialEq, Eq, Structural)]
pub enum Choice {
    /// The variant at this index replaces the action.
    Variant(usize),
    /// The action itself runs.
    Base,
    /// The action's own condition is false: nothing runs.
    Skip,
    /// The action's own condition could not be evaluated.
    GuardFailed,
}

/// The conditions of a list of variants, as plain values.
pub open spec fn variant_conditions<T>(variants: Seq<Variant<T>>) -> Seq<Option<Seq<char>>> {
    variants.map_values(|v: Variant<T>| match v.condition {
        Some(c) => Some(c@),
        None => None,
    })
}

/// A variant matches when it has a condition and that condition holds.
pub open spec fn variant_matches(
    cond: Option<Seq<char>>,
    scope: Seq<(Seq<char>, Seq<(Seq<char>, Seq<char>)>)>,
) -> bool {
    match cond {
        Some(c) => guard_holds(c, scope),
        None => false,
    }
}

/// The first variant that matches, then the action's own condition, decide what runs.
pub open spec fn choice_of(
    conds: Seq<Option<Seq<char>>>,
    base: Option<Seq<char>>,
    scope: Seq<(Seq<char>, Seq<(Seq<char>, Seq<char>)>)>,
) -> Choice {
    if exists|i: int| 0 <= i < conds.len() && variant_matches(conds[i], scope) {
        let i = choose|i: int|
            0 <= i < conds.len() && variant_matches(conds[i], scope) && (forall|j: int|
                0 <= j < i ==> !variant_matches(#[trigger] conds[j], scope));
        Choice::Variant(i as usize)
    } else {
        match base {
            None => Choice::Base,
            Some(c) => match guard_value(c, scope) {
                Some(true) => Choice::Base,
                Some(false) => Choice::Skip,
                None => Choice::GuardFailed,
            },
        }
    }
}

/// The optional condition as plain characters.
pub open spec fn opt_view(c: Option<String>) -> Option<Seq<char>> {
    match c {
        Some(s) => Some(s@),
        None => None,
    }
}

/// What a conditional action comes to in the given contexts.
pub open spec fn action_choice<T>(a: ConditionalVariantAction<T>, c: Contexts) -> Choice {
    choice_of(variant_conditions(a.variants@), opt_view(a.condition), contexts_view(c))
}

proof fn lemma_first_match(
    conds: Seq<Option<Seq<char>>>,
    scope: Seq<(Seq<char>, Seq<(Seq<char>, Seq<char>)>)>,
    i: int,
)
    requires
        0 <= i < conds.len(),
        variant_matches(conds[i], scope),
        forall|j: int| 0 <= j < i ==> !variant_matches(#[trigger] conds[j], scope),
    ensures
        choice_of(conds, None, scope) == Choice::Variant(i as usize),
        forall|b: Option<Seq<char>>| choice_of(conds, b, scope) == Choice::Variant(i as usize),
{
    let k = choose|k: int|
        0 <= k < conds.len() && variant_matches(conds[k], scope) && (forall|j: int|
            0 <= j < k ==> !variant_matches(#[trigger] conds[j], scope));
    if k < i {
        assert(!variant_matches(conds[k], scope));
    }
    if i < k {
        assert(!variant_matches(conds[i], scope));
    }
}

/// The smallest index of a matching variant is the one chosen.
proof fn lemma_choice_exists(
    conds: Seq<Option<Seq<char>>>,
    scope: Seq<(Seq<char>, Seq<(Seq<char>, Seq<char>)>)>,
    i: int,
)
    requires
        0 <= i < conds.len(),
        variant_matches(conds[i], scope),
    ensures
        exists|k: int|
            0 <= k < conds.len() && variant_matches(conds[k], scope) && (forall|j: int|
                0 <= j < k ==> !variant_matches(#[trigger] conds[j], scope)),
    decreases i,
{
    if exists|j: int| 0 <= j < i && variant_matches(conds[j], scope) {
        let j = choose|j: int| 0 <= j < i && variant_matches(conds[j], scope);
        lemma_choice_exists(conds, scope, j);
    }
}

impl<T> ConditionalVariantAction<T> {
    /// Decides what runs: the first variant whose condition holds (a condition that
    /// fails to evaluate does not hold); else the action itself, if it has no
    /// condition or its condition holds; else nothing. An action condition that
    /// fails to evaluate is an error.
    pub fn select(&self, contexts: &Contexts) -> (r: Choice)
        ensures
            r == action_choice(*self, *contexts),
            r matches Choice::Variant(i) ==> i < self.variants@.len(),
    {
        let ghost conds = variant_conditions(self.variants@);
        let ghost scope = contexts_view(*contexts);
        let mut i: usize = 0;
        while i < self.variants.len()
            invariant
                conds == variant_conditions(self.variants@),
                scope == contexts_view(*contexts),
                i <= self.variants@.len(),
                forall|j: int| 0 <= j < i ==> !variant_matches(#[trigger] conds[j], scope),
            decreases self.variants@.len() - i,
        {
            let holds = match &self.variants[i].condition {
                Some(c) => guard_allows(c.as_str(), contexts),
                None => false,
            };
            assert(holds == variant_matches(conds[i as int], scope));
            if holds {
                proof {
                    lemma_first_match(conds, scope, i as int);
                }
                return Choice::Variant(i);
            }
            i = i + 1;
        }
        assert(!exists|i: int| 0 <= i < conds.len() && variant_matches(conds[i], scope));
        match &self.condition {
            None => Choice::Base,
            Some(c) => match crate::guard::evaluate_guard(c.as_str(), contexts) {
                Ok(true) => Choice::Base,
                Ok(false) => Choice::Skip,
                Err(_) => Choice::GuardFailed,
            },
        }
    }
}

/// Selecting a variant depends on nothing but the action and the contexts: equal
/// actions in equal contexts make the same choice.
pub proof fn variant_selection_is_deterministic<T>(
    a: ConditionalVariantAction<T>,
    b: ConditionalVariantAction<T>,
    c: Contexts,
    d: Contexts,
)
    requires
        variant_conditions(a.variants@) == variant_conditions(b.variants@),
        opt_view(a.condition) == opt_view(b.condition),
        contexts_view(c) == contexts_view(d),
    ensures
        action_choice(a, c) == action_choice(b, d),
{
}

/// A variant whose condition cannot be evaluated (it names a missing context
/// key, say) is never chosen, and never makes the choice an error.
pub proof fn failing_variant_guard_does_not_match<T>(a: ConditionalVariantAction<T>, c: Contexts, i: int)
    requires
        0 <= i < a.variants@.len() <= usize::MAX,
        a.variants@[i].condition matches Some(cond) && guard_value(cond@, contexts_view(c)) is None,
    ensures
        action_choice(a, c) != Choice::Variant(i as usize),
        action_choice(a, c) == Choice::GuardFailed ==> (a.condition matches Some(own)
            && guard_value(own@, contexts_view(c)) is None),
        (forall|j: int|
            0 <= j < a.variants@.len() && j != i ==> !variant_matches(
                #[trigger] variant_conditions(a.variants@)[j],
                contexts_view(c),
            )) ==> action_choice(a, c) == choice_of(
            Seq::<Option<Seq<char>>>::empty(),
            opt_view(a.condition),
            contexts_view(c),
        ),
{
    let conds = variant_conditions(a.variants@);
    let scope = contexts_view(c);
    assert(!variant_matches(conds[i], scope));
    if exists|k: int| 0 <= k < conds.len() && variant_matches(conds[k], scope) {
        let k = choose|k: int| 0 <= k < conds.len() && variant_matches(conds[k], scope);
        lemma_choice_exists(conds, scope, k);
        let f = choose|f: int|
            0 <= f < conds.len() && variant_matches(conds[f], scope) && (forall|j: int|
                0 <= j < f ==> !variant_matches(#[trigger] conds[j], scope));
        assert(f != i);
        assert(choice_of(conds, opt_view(a.condition), scope) == Choice::Variant(f as usize));
    }
}

impl<T: Action> Action for ConditionalVariantAction<T> {
    open spec fn summary(&self) -> Seq<char> {
        self.action.summary()
    }

    /// The plan of what the choice selects: the chosen variant or the action
    /// itself; nothing when the action's condition is false; an error when it
    /// cannot be evaluated.
    open spec fn planned(&self, m: Manifest, c: Contexts, r: Result<Vec<Step>, ActionError>) -> bool {
        match action_choice(*self, c) {
            Choice::Variant(i) => self.variants@[i as int].action.planned(m, c, r),
            Choice::Base => self.action.planned(m, c, r),
            Choice::Skip => r matches Ok(v) && v@.len() == 0,
            Choice::GuardFailed => r is Err,
        }
    }

    fn summarize(&self) -> String {
        self.action.summarize()
    }

    fn plan(&self, manifest: &Manifest, contexts: &Contexts) -> Result<Vec<Step>, ActionError> {
        match self.select(contexts) {
            Choice::Variant(i) => self.variants[i].action.plan(manifest, contexts),
            Choice::Base => self.action.plan(manifest, contexts),
            Choice::Skip => Ok(Vec::new()),
            Choice::GuardFailed => Err(
                ActionError { message: String::from_str("Failed execution condition for action") },
            ),
        }
    }
}

/// The kinds of action a manifest can name, by their tags.
#[derive(Clone, Copy, Debug, PartialEq, Eq, Structural)]
pub enum ActionKind {
    CommandRun,
    DirectoryCopy,
    DirectoryCreate,
    DirectoryRemove,
    FileCopy,
    FileChown,
    FileDownload,
    FileLink,
    FileRemove,
    FileUnarchive,
    BinaryGitHub,
    GitClone,
    GroupAdd,
    MacOSDefault,
    PackageInstall,
    PackageRepository,
    UserAdd,
    UserAddGroup,
    Plugin,
}

/// The canonical tag of each kind.
pub open spec fn kind_tag(k: ActionKind) -> Seq<char> {
    match k {
        ActionKind::CommandRun => "command.run"@,
        ActionKind::DirectoryCopy => "directory.copy"@,
        ActionKind::DirectoryCreate => "directory.create"@,
        ActionKind::DirectoryRemove => "directory.remove"@,
        ActionKind::FileCopy => "file.copy"@,
        ActionKind::FileChown => "file.chown"@,
        ActionKind::FileDownload => "file.download"@,
        ActionKind::FileLink => "file.link"@,
        ActionKind::FileRemove => "file.remove"@,
        ActionKind::FileUnarchive => "file.unarchive"@,
        ActionKind::BinaryGitHub => "binary.github"@,
        ActionKind::GitClone => "git.clone"@,
        ActionKind::GroupAdd => "group.add"@,
        ActionKind::MacOSDefault => "macos.default"@,
        ActionKind::PackageInstall => "package.install"@,
        ActionKind::PackageRepository => "package.repository"@,
        ActionKind::UserAdd => "user.add"@,
        ActionKind::UserAddGroup => "user.group"@,
        ActionKind::Plugin => "plugin"@,
    }
}

/// The kind a tag names: its canonical tag or one of its aliases.
pub open spec fn tag_kind(t: Seq<char>) -> Option<ActionKind> {
    if t == "command.run"@ || t == "cmd.run"@ {
        Some(ActionKind::CommandRun)
    } else if t == "directory.copy"@ || t == "dir.copy"@ {
        Some(ActionKind::DirectoryCopy)
    } else if t == "directory.create"@ || t == "dir.create"@ {
        Some(ActionKind::DirectoryCreate)
    } else if t == "directory.remove"@ || t == "dir.remove"@ {
        Some(ActionKind::DirectoryRemove)
    } else if t == "file.copy"@ {
        Some(ActionKind::FileCopy)
    } else if t == "file.chown"@ {
        Some(ActionKind::FileChown)
    } else if t == "file.download"@ {
        Some(ActionKind::FileDownload)
    } else if t == "file.link"@ {
        Some(ActionKind::FileLink)
    } else if t == "file.remove"@ {
        Some(ActionKind::FileRemove)
    } else if t == "file.unarchive"@ {
        Some(ActionKind::FileUnarchive)
    } else if t == "binary.github"@ || t == "bin.gh"@ || t == "bin.github"@ || t == "binary.gh"@ {
        Some(ActionKind::BinaryGitHub)
    } else if t == "git.clone"@ {
        Some(ActionKind::GitClone)
    } else if t == "group.add"@ {
        Some(ActionKind::GroupAdd)
    } else if t == "macos.default"@ {
        Some(ActionKind::MacOSDefault)
    } else if t == "package.install"@ || t == "package.installed"@ {
        Some(ActionKind::PackageInstall)
    } else if t == "package.repository"@ || t == "package.repo"@ {
        Some(ActionKind::PackageRepository)
    } else if t == "user.add"@ {
        Some(ActionKind::UserAdd)
    } else if t == "user.group"@ {
        Some(ActionKind::UserAddGroup)
    } else if t == "plugin"@ {
        Some(ActionKind::Plugin)
    } else {
        None
    }
}

impl ActionKind {
    /// The kind that `tag` names, accepting the aliases.
    pub fn from_tag(tag: &str) -> (r: Option<ActionKind>)
        ensures
            r == tag_kind(tag@),
    {
        proof {
            reveal_strlit("command.run");
            reveal_strlit("cmd.run");
            reveal_strlit("directory.copy");
            reveal_strlit("dir.copy");
            reveal_strlit("directory.create");
            reveal_strlit("dir.create");
            reveal_strlit("directory.remove");
            reveal_strlit("dir.remove");
            reveal_strlit("file.copy");
            reveal_strlit("file.chown");
            reveal_strlit("file.download");
            reveal_strlit("file.link");
            reveal_strlit("file.remove");
            reveal_strlit("file.unarchive");
            reveal_strlit("binary.github");
            reveal_strlit("bin.gh");
            reveal_strlit("bin.github");
            reveal_strlit("binary.gh");
            reveal_strlit("git.clone");
            reveal_strlit("group.add");
            reveal_strlit("macos.default");
            reveal_strlit("package.install");
            reveal_strlit("package.installed");
            reveal_strlit("package.repository");
            reveal_strlit("package.repo");
            reveal_strlit("user.add");
            reveal_strlit("user.group");
            reveal_strlit("plugin");
        }
        if str_eq(tag, "command.run") || str_eq(tag, "cmd.run") {
            Some(ActionKind::CommandRun)
        } else if str_eq(tag, "directory.copy") || str_eq(tag, "dir.copy") {
            Some(ActionKind::DirectoryCopy)
        } else if str_eq(tag, "directory.create") || str_eq(tag, "dir.create") {
            Some(ActionKind::DirectoryCreate)
        } else if str_eq(tag, "directory.remove") || str_eq(tag, "dir.remove") {
            Some(ActionKind::DirectoryRemove)
        } else if str_eq(tag, "file.copy") {
            Some(ActionKind::FileCopy)
        } else if str_eq(tag, "file.chown") {
            Some(ActionKind::FileChown)
        } else if str_eq(tag, "file.download") {
            Some(ActionKind::FileDownload)
        } else if str_eq(tag, "file.link") {
            Some(ActionKind::FileLink)
        } else if str_eq(tag, "file.remove") {
            Some(ActionKind::FileRemove)
        } else if str_eq(tag, "file.unarchive") {
            Some(ActionKind::FileUnarchive)
        } else if str_eq(tag, "binary.github") || str_eq(tag, "bin.gh") || str_eq(tag, "bin.github") || str_eq(tag, "binary.gh") {
            Some(ActionKind::BinaryGitHub)
        } else if str_eq(tag, "git.clone") {
            Some(ActionKind::GitClone)
        } else if str_eq(tag, "group.add") {
            Some(ActionKind::GroupAdd)
        } else if str_eq(tag, "macos.default") {
            Some(ActionKind::MacOSDefault)
        } else if str_eq(tag, "package.install") || str_eq(tag, "package.installed") {
            Some(ActionKind::PackageInstall)
        } else if str_eq(tag, "package.repository") || str_eq(tag, "package.repo") {
            Some(ActionKind::PackageRepository)
        } else if str_eq(tag, "user.add") {
            Some(ActionKind::UserAdd)
        } else if str_eq(tag, "user.group") {
            Some(ActionKind::UserAddGroup)
        } else if str_eq(tag, "plugin") {
            Some(ActionKind::Plugin)
        } else {
            None
        }
    }

    /// The canonical tag of the kind.
    pub fn tag(&self) -> (r: &'static str)
        ensures
            r@ == kind_tag(*self),
    {
        match self {
            ActionKind::CommandRun => "command.run",
            ActionKind::DirectoryCopy => "directory.copy",
            ActionKind::DirectoryCreate => "directory.create",
            ActionKind::DirectoryRemove => "directory.remove",
            ActionKind::FileCopy => "file.copy",
            ActionKind::FileChown => "file.chown",
            ActionKind::FileDownload => "file.download",
            ActionKind::FileLink => "file.link",
            ActionKind::FileRemove => "file.remove",
            ActionKind::FileUnarchive => "file.unarchive",
            ActionKind::BinaryGitHub => "binary.github",
            ActionKind::GitClone => "git.clone",
            ActionKind::GroupAdd => "group.add",
            ActionKind::MacOSDefault => "macos.default",
            ActionKind::PackageInstall => "package.install",
            ActionKind::PackageRepository => "package.repository",
            ActionKind::UserAdd => "user.add",
            ActionKind::UserAddGroup => "user.group",
            ActionKind::Plugin => "plugin",
        }
    }
}

/// Every action a manifest can hold, each with its condition and variants.
pub enum Actions {
    CommandRun(ConditionalVariantAction<RunCommand>),
    DirectoryCopy(ConditionalVariantAction<DirectoryCopy>),
    GitClone(ConditionalVariantAction<GitClone>),
    GroupAdd(ConditionalVariantAction<GroupAdd>),
    PackageInstall(ConditionalVariantAction<PackageInstall>),
    PackageRepository(ConditionalVariantAction<PackageRepository>),
    UserAdd(ConditionalVariantAction<UserAdd>),
    UserAddGroup(ConditionalVariantAction<UserAddGroup>),
}

/// The kind of each action.
pub open spec fn action_kind(a: Actions) -> ActionKind {
    match a {
        Actions::CommandRun(_) => ActionKind::CommandRun,
        Actions::DirectoryCopy(_) => ActionKind::DirectoryCopy,
        Actions::GitClone(_) => ActionKind::GitClone,
        Actions::GroupAdd(_) => ActionKind::GroupAdd,
        Actions::PackageInstall(_) => ActionKind::PackageInstall,
        Actions::PackageRepository(_) => ActionKind::PackageRepository,
        Actions::UserAdd(_) => ActionKind::UserAdd,
        Actions::UserAddGroup(_) => ActionKind::UserAddGroup,
    }
}

/// Package installs and repository changes take the host's package database lock.
pub open spec fn is_package_op(a: Actions) -> bool {
    a is PackageInstall || a is PackageRepository
}

impl Actions {
    /// The action through which the manifest's entry is planned and summarized.
    pub fn inner_ref(&self) -> (r: &Actions)
        ensures
            r == self,
    {
        self
    }

    /// The kind of the action.
    pub fn kind(&self) -> (r: ActionKind)
        ensures
            r == action_kind(*self),
    {
        match self {
            Actions::CommandRun(_) => ActionKind::CommandRun,
            Actions::DirectoryCopy(_) => ActionKind::DirectoryCopy,
            Actions::GitClone(_) => ActionKind::GitClone,
            Actions::GroupAdd(_) => ActionKind::GroupAdd,
            Actions::PackageInstall(_) => ActionKind::PackageInstall,
            Actions::PackageRepository(_) => ActionKind::PackageRepository,
            Actions::UserAdd(_) => ActionKind::UserAdd,
            Actions::UserAddGroup(_) => ActionKind::UserAddGroup,
        }
    }

    /// The canonical tag of the action.
    pub fn name(&self) -> (r: String)
        ensures
            r@ == kind_tag(action_kind(*self)),
    {
        self.kind().tag().to_string()
    }

    /// Whether the action works on the package database.
    pub fn is_package_op(&self) -> (r: bool)
        ensures
            r == is_package_op(*self),
    {
        match self {
            Actions::PackageInstall(_) | Actions::PackageRepository(_) => true,
            _ => false,
        }
    }
}

impl Action for Actions {
    open spec fn summary(&self) -> Seq<char> {
        match self {
            Actions::CommandRun(a) => a.summary(),
            Actions::DirectoryCopy(a) => a.summary(),
            Actions::GitClone(a) => a.summary(),
            Actions::GroupAdd(a) => a.summary(),
            Actions::PackageInstall(a) => a.summary(),
            Actions::PackageRepository(a) => a.summary(),
            Actions::UserAdd(a) => a.summary(),
            Actions::UserAddGroup(a) => a.summary(),
        }
    }

    /// Each action plans as the action it wraps.
    open spec fn planned(&self, m: Manifest, c: Contexts, r: Result<Vec<Step>, ActionError>) -> bool {
        match self {
            Actions::CommandRun(a) => a.planned(m, c, r),
            Actions::DirectoryCopy(a) => a.planned(m, c, r),
            Actions::GitClone(a) => a.planned(m, c, r),
            Actions::GroupAdd(a) => a.planned(m, c, r),
            Actions::PackageInstall(a) => a.planned(m, c, r),
            Actions::PackageRepository(a) => a.planned(m, c, r),
            Actions::UserAdd(a) => a.planned(m, c, r),
            Actions::UserAddGroup(a) => a.planned(m, c, r),
        }
    }

    fn summarize(&self) -> String {
        match self {
            Actions::CommandRun(a) => a.summarize(),
            Actions::DirectoryCopy(a) => a.summarize(),
            Actions::GitClone(a) => a.summarize(),
            Actions::GroupAdd(a) => a.summarize(),
            Actions::PackageInstall(a) => a.summarize(),
            Actions::PackageRepository(a) => a.summarize(),
            Actions::UserAdd(a) => a.summarize(),
            Actions::UserAddGroup(a) => a.summarize(),
        }
    }

    fn plan(&self, manifest: &Manifest, contexts: &Contexts) -> Result<Vec<Step>, ActionError> {
        match self {
            Actions::CommandRun(a) => a.plan(manifest, contexts),
            Actions::DirectoryCopy(a) => a.plan(manifest, contexts),
            Actions::GitClone(a) => a.plan(manifest, contexts),
            Actions::GroupAdd(a) => a.plan(manifest, contexts),
            Actions::PackageInstall(a) => a.plan(manifest, contexts),
            Actions::PackageRepository(a) => a.plan(manifest, contexts),
            Actions::UserAdd(a) => a.plan(manifest, contexts),
            Actions::UserAddGroup(a) => a.plan(manifest, contexts),
        }
    }
}

} // verus!
