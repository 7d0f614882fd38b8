use vstd::prelude::*;
use vstd::string::*;

use crate::actions::{Action, ActionError};
use crate::atoms::{Atom, Exec, ExecStatus};
use crate::contexts::{privilege_or_sudo, privilege_provider_or_sudo, Contexts};
use crate::manifest::Manifest;
use crate::steps::Step;

verus! {

/// Relies on uzers::get_user_by_name: whether the system's user database holds the name.
#[verifier::external_body]
fn user_exists(username: &str) -> bool {
    uzers::get_user_by_name(username).is_some()
}

/// Relies on uzers::get_group_by_name: whether the system's group database holds the name.
#[verifier::external_body]
fn group_exists(group_name: &str) -> bool {
    uzers::get_group_by_name(group_name).is_some()
}

/// The provider for systems that have no way to manage users.
pub struct NoneUserProvider {}

/// The provider for systems that have no way to manage groups.
pub struct NoneGroupProvider {}

/// Manages users with the shadow utilities (`useradd`, `usermod`).
pub struct LinuxUserProvider {}

/// Manages groups with the shadow utilities (`groupadd`).
pub struct LinuxGroupProvider {}

/// The ways of managing users.
#[derive(Clone, Copy, Debug, PartialEq, Eq, Structural)]
pub enum UserProviders {
    NoneProvider,
    Linux,
}

/// The ways of managing groups.
#[derive(Clone, Copy, Debug, PartialEq, Eq, Structural)]
pub enum GroupProviders {
    NoneProvider,
    Linux,
}

/// A provider of user management.
pub enum UserProvider {
    NoneProvider(NoneUserProvider),
    Linux(LinuxUserProvider),
}

/// A provider of group management.
pub enum GroupProvider {
    NoneProvider(NoneGroupProvider),
    Linux(LinuxGroupProvider),
}

impl UserProviders {
    /// The provider that does the work.
    pub fn get_provider(self) -> (r: UserProvider)
        ensures
            self is NoneProvider <==> r is NoneProvider,
    {
        match self {
            UserProviders::NoneProvider => UserProvider::NoneProvider(NoneUserProvider {}),
            UserProviders::Linux => UserProvider::Linux(LinuxUserProvider {}),
        }
    }
}

impl GroupProviders {
    /// The provider that does the work.
    pub fn get_provider(self) -> (r: GroupProvider)
        ensures
            self is NoneProvider <==> r is NoneProvider,
    {
        match self {
            GroupProviders::NoneProvider => GroupProvider::NoneProvider(NoneGroupProvider {}),
            GroupProviders::Linux => GroupProvider::Linux(LinuxGroupProvider {}),
        }
    }
}

/// The words of `words` joined by commas.
pub open spec fn join_commas(words: Seq<String>) -> Seq<char>
    decreases words.len(),
{
    if words.len() == 0 {
        Seq::empty()
    } else if words.len() == 1 {
        words[0]@
    } else {
        join_commas(words.drop_last()) + ","@ + words.last()@
    }
}

/// The words of `words` joined by commas.
pub fn join_with_commas(words: &Vec<String>) -> (r: String)
    ensures
        r@ == join_commas(words@),
{
    let mut s = String::new();
    let mut i: usize = 0;
    while i < words.len()
        invariant
            i <= words@.len(),
            s@ == join_commas(words@.subrange(0, i as int)),
        decreases words@.len() - i,
    {
        proof {
            let next = words@.subrange(0, i + 1);
            assert(next.drop_last() =~= words@.subrange(0, i as int));
        }
        if i > 0 {
            s.append(",");
        }
        s.append(words[i].as_str());
        i = i + 1;
    }
    assert(words@.subrange(0, i as int) =~= words@);
    s
}

/// An option and its value, where the value is not empty.
pub open spec fn option_words(flag: Seq<char>, value: String) -> Seq<Seq<char>> {
    if value@.len() == 0 {
        Seq::empty()
    } else {
        seq![flag, value@]
    }
}

/// The arguments of `useradd`: home directory, full name and shell where given, then the name.
pub open spec fn useradd_arguments(u: User) -> Seq<Seq<char>> {
    option_words("-d"@, u.home_dir) + option_words("-c"@, u.fullname) + option_words("-s"@, u.shell) + seq![
        u.username@,
    ]
}

/// The step runs `command` with `arguments` as the superuser.
pub open spec fn privileged_step(s: Step, command: Seq<char>, arguments: Seq<Seq<char>>, c: Contexts) -> bool {
    &&& s.initializers@.len() == 0
    &&& s.finalizers@.len() == 0
    &&& s.atom matches Atom::Exec(e)
    &&& e.command@ == command
    &&& e.arguments@.map_values(|a: String| a@) == arguments
    &&& e.privileged
    &&& e.privilege_provider@ == privilege_or_sudo(c)
}

/// The step adds `username` to the groups `groups`.
pub open spec fn adds_to_groups(s: Step, username: String, groups: Seq<String>, c: Contexts) -> bool {
    privileged_step(s, "usermod"@, seq!["-a"@, "-G"@, join_commas(groups), username@], c)
}

/// A privileged exec step.
fn privileged_exec_step(command: &str, arguments: Vec<String>, contexts: &Contexts) -> (r: Step)
    ensures
        privileged_step(r, command@, arguments@.map_values(|a: String| a@), *contexts),
{
    crate::steps::Step::of_atom(
        Atom::Exec(
            Exec {
                command: command.to_string(),
                arguments,
                working_dir: None,
                environment: Vec::new(),
                privileged: true,
                privilege_provider: privilege_provider_or_sudo(contexts),
                status: ExecStatus::default(),
            },
        ),
    )
}

/// Appends an option and its value when the value is not empty.
fn push_option(args: &mut Vec<String>, flag: &str, value: &String)
    ensures
        final(args)@.map_values(|a: String| a@) == old(args)@.map_values(|a: String| a@) + option_words(flag@, *value),
{
    let ghost before = old(args)@;
    if value.as_str().unicode_len() > 0 {
        args.push(flag.to_string());
        args.push(value.clone());
        assert(args@.map_values(|a: String| a@) =~= before.map_values(|a: String| a@) + option_words(flag@, *value));
    } else {
        assert(args@.map_values(|a: String| a@) =~= before.map_values(|a: String| a@) + option_words(flag@, *value));
    }
}

/// The step that adds `username` to `groups`.
fn usermod_step(username: &String, groups: &Vec<String>, contexts: &Contexts) -> (r: Step)
    ensures
        adds_to_groups(r, *username, groups@, *contexts),
{
    let mut args: Vec<String> = Vec::new();
    args.push(String::from_str("-a"));
    args.push(String::from_str("-G"));
    args.push(join_with_commas(groups));
    args.push(username.clone());
    assert(args@.map_values(|a: String| a@) =~= seq!["-a"@, "-G"@, join_commas(groups@), username@]);
    privileged_exec_step("usermod", args, contexts)
}

impl LinuxUserProvider {
    /// `useradd` with the user's options, then, where groups are named, `usermod -a -G`.
    pub fn add_user(&self, user: &User, contexts: &Contexts) -> (r: Result<Vec<Step>, ActionError>)
        ensures
            r matches Ok(v) && v@.len() == (if user.group@.len() > 0 { 2int } else { 1int })
                && privileged_step(v@[0], "useradd"@, useradd_arguments(*user), *contexts)
                && (user.group@.len() > 0 ==> adds_to_groups(v@[1], user.username, user.group@, *contexts)),
    {
        let mut args: Vec<String> = Vec::new();
        push_option(&mut args, "-d", &user.home_dir);
        push_option(&mut args, "-c", &user.fullname);
        push_option(&mut args, "-s", &user.shell);
        let ghost before = args@;
        args.push(user.username.clone());
        assert(args@.map_values(|a: String| a@) =~= before.map_values(|a: String| a@) + seq![user.username@]);
        assert(args@.map_values(|a: String| a@) =~= useradd_arguments(*user));
        let mut steps: Vec<Step> = Vec::new();
        steps.push(privileged_exec_step("useradd", args, contexts));
        if user.group.len() > 0 {
            steps.push(usermod_step(&user.username, &user.group, contexts));
        }
        Ok(steps)
    }

    /// `usermod -a -G` with the groups; nothing where no group is named.
    pub fn add_to_group(&self, user: &UserAddGroup, contexts: &Contexts) -> (r: Result<Vec<Step>, ActionError>)
        ensures
            r matches Ok(v) && v@.len() == (if user.group@.len() > 0 { 1int } else { 0int })
                && (user.group@.len() > 0 ==> adds_to_groups(v@[0], user.username, user.group@, *contexts)),
    {
        let mut steps: Vec<Step> = Vec::new();
        if user.group.len() > 0 {
            steps.push(usermod_step(&user.username, &user.group, contexts));
        }
        Ok(steps)
    }
}

impl LinuxGroupProvider {
    /// `groupadd` with the group's name.
    pub fn add_group(&self, group: &Group, contexts: &Contexts) -> (r: Vec<Step>)
        ensures
            r@.len() == 1,
            privileged_step(r@[0], "groupadd"@, seq![group.group_name@], *contexts),
    {
        let mut args: Vec<String> = Vec::new();
        args.push(group.group_name.clone());
        assert(args@.map_values(|a: String| a@) =~= seq![group.group_name@]);
        let mut steps: Vec<Step> = Vec::new();
        steps.push(privileged_exec_step("groupadd", args, contexts));
        steps
    }
}

/// The steps a user provider gives for adding `user`.
pub open spec fn user_added(p: UserProviders, user: User, c: Contexts, v: Seq<Step>) -> bool {
    match p {
        UserProviders::NoneProvider => v.len() == 0,
        UserProviders::Linux => v.len() == (if user.group@.len() > 0 { 2int } else { 1int })
            && privileged_step(v[0], "useradd"@, useradd_arguments(user), c) && (user.group@.len() > 0
            ==> adds_to_groups(v[1], user.username, user.group@, c)),
    }
}

impl UserProvider {
    /// Adds a user through the provider.
    pub fn add_user(&self, user: &User, contexts: &Contexts) -> (r: Result<Vec<Step>, ActionError>)
        ensures
            self is NoneProvider ==> (r matches Ok(v) && v@.len() == 0),
            self is Linux ==> (r matches Ok(v) && user_added(UserProviders::Linux, *user, *contexts, v@)),
    {
        match self {
            UserProvider::NoneProvider(p) => p.add_user(user, contexts),
            UserProvider::Linux(p) => p.add_user(user, contexts),
        }
    }

    /// Adds a user to groups through the provider.
    pub fn add_to_group(&self, user: &UserAddGroup, contexts: &Contexts) -> (r: Result<Vec<Step>, ActionError>)
        ensures
            self is NoneProvider ==> (r matches Ok(v) && v@.len() == 0),
            self is Linux ==> (r matches Ok(v) && v@.len() == (if user.group@.len() > 0 { 1int } else { 0int })
                && (user.group@.len() > 0 ==> adds_to_groups(v@[0], user.username, user.group@, *contexts))),
    {
        match self {
            UserProvider::NoneProvider(p) => p.add_to_group(user, contexts),
            UserProvider::Linux(p) => p.add_to_group(user, contexts),
        }
    }
}

impl GroupProvider {
    /// Adds a group through the provider.
    pub fn add_group(&self, group: &Group, contexts: &Contexts) -> (r: Vec<Step>)
        ensures
            self is NoneProvider ==> r@.len() == 0,
            self is Linux ==> r@.len() == 1 && privileged_step(r@[0], "groupadd"@, seq![group.group_name@], *contexts),
    {
        match self {
            GroupProvider::NoneProvider(p) => p.add_group(group, contexts),
            GroupProvider::Linux(p) => p.add_group(group, contexts),
        }
    }
}

/// A user account to create.
pub struct User {
    pub username: String,
    pub fullname: String,
    pub home_dir: String,
    pub shell: String,
    pub group: Vec<String>,
    pub provider: UserProviders,
}

pub type UserAdd = User;

/// Adds a user to groups.
pub struct UserAddGroup {
    pub username: String,
    pub group: Vec<String>,
    pub provider: UserProviders,
}

/// A group to create.
pub struct Group {
    pub group_name: String,
    pub provider: GroupProviders,
}

pub type GroupAdd = Group;

impl NoneUserProvider {
    /// There is no way to add a user here: nothing to do.
    pub fn add_user(&self, _user: &User, _contexts: &Contexts) -> (r: Result<Vec<Step>, ActionError>)
        ensures
            r matches Ok(v) && v@.len() == 0,
    {
        Ok(Vec::new())
    }

    /// There is no way to change a user's groups here: nothing to do.
    pub fn add_to_group(&self, _user: &UserAddGroup, _contexts: &Contexts) -> (r: Result<Vec<Step>, ActionError>)
        ensures
            r matches Ok(v) && v@.len() == 0,
    {
        Ok(Vec::new())
    }
}

impl NoneGroupProvider {
    /// There is no way to add a group here: nothing to do.
    pub fn add_group(&self, _group: &Group, _contexts: &Contexts) -> (r: Vec<Step>)
        ensures
            r@.len() == 0,
    {
        Vec::new()
    }
}

/// What planning `user` gives when `exists` tells whether the system knows the
/// name: nothing for an empty name or a known user; otherwise the provider's steps.
pub open spec fn user_planned(user: User, exists: bool, c: Contexts, r: Result<Vec<Step>, ActionError>) -> bool {
    if user.username@.len() == 0 || exists {
        r matches Ok(v) && v@.len() == 0
    } else {
        r matches Ok(v) && user_added(user.provider, user, c, v@)
    }
}

/// The steps a group provider gives for adding `group`.
pub open spec fn group_added(p: GroupProviders, group: Group, c: Contexts, v: Seq<Step>) -> bool {
    match p {
        GroupProviders::NoneProvider => v.len() == 0,
        GroupProviders::Linux => v.len() == 1 && privileged_step(v[0], "groupadd"@, seq![group.group_name@], c),
    }
}

/// What planning `group` gives when `exists` tells whether the system knows the
/// name: nothing for a known group; otherwise the provider's steps.
pub open spec fn group_planned(group: Group, exists: bool, c: Contexts, r: Result<Vec<Step>, ActionError>) -> bool {
    if exists {
        r matches Ok(v) && v@.len() == 0
    } else {
        r matches Ok(v) && group_added(group.provider, group, c, v@)
    }
}

impl User {
    /// The plan, given whether the user already exists.
    pub fn plan_given(&self, exists: bool, contexts: &Contexts) -> (r: Result<Vec<Step>, ActionError>)
        ensures
            user_planned(*self, exists, *contexts, r),
    {
        if self.username.as_str().unicode_len() == 0 || exists {
            return Ok(Vec::new());
        }
        self.provider.get_provider().add_user(self, contexts)
    }
}

impl Group {
    /// The plan, given whether the group already exists.
    pub fn plan_given(&self, exists: bool, contexts: &Contexts) -> (r: Result<Vec<Step>, ActionError>)
        ensures
            group_planned(*self, exists, *contexts, r),
    {
        if exists {
            return Ok(Vec::new());
        }
        Ok(self.provider.get_provider().add_group(self, contexts))
    }
}

impl Action for User {
    open spec fn summary(&self) -> Seq<char> {
        "Creating user "@ + self.username@
    }

    /// Nothing for an empty name or a user that exists; otherwise the provider's steps.
    open spec fn planned(&self, m: Manifest, c: Contexts, r: Result<Vec<Step>, ActionError>) -> bool {
        exists|known: bool| user_planned(*self, known, c, r)
    }

    fn summarize(&self) -> (r: String) {
        let mut s = String::from_str("Creating user ");
        s.append(self.username.as_str());
        s
    }

    fn plan(&self, _manifest: &Manifest, contexts: &Contexts) -> (r: Result<Vec<Step>, ActionError>) {
        let known = self.username.as_str().unicode_len() > 0 && user_exists(self.username.as_str());
        self.plan_given(known, contexts)
    }
}

/// What adding a user to groups gives: with the Linux provider, one `usermod`
/// step where groups are named; nothing otherwise.
pub open spec fn groups_joined(u: UserAddGroup, c: Contexts, r: Result<Vec<Step>, ActionError>) -> bool {
    match u.provider {
        UserProviders::NoneProvider => r matches Ok(v) && v@.len() == 0,
        UserProviders::Linux => r matches Ok(v) && v@.len() == (if u.group@.len() > 0 { 1int } else { 0int })
            && (u.group@.len() > 0 ==> adds_to_groups(v@[0], u.username, u.group@, c)),
    }
}

impl Action for UserAddGroup {
    open spec fn summary(&self) -> Seq<char> {
        "Adding user "@ + self.username@ + " to groups"@
    }

    open spec fn planned(&self, m: Manifest, c: Contexts, r: Result<Vec<Step>, ActionError>) -> bool {
        groups_joined(*self, c, r)
    }

    fn summarize(&self) -> (r: String) {
        let mut s = String::from_str("Adding user ");
        s.append(self.username.as_str());
        s.append(" to groups");
        s
    }

    fn plan(&self, _manifest: &Manifest, contexts: &Contexts) -> (r: Result<Vec<Step>, ActionError>) {
        self.provider.get_provider().add_to_group(self, contexts)
    }
}

impl Action for Group {
    open spec fn summary(&self) -> Seq<char> {
        "Creating group "@ + self.group_name@
    }

    /// Nothing for a group that exists; otherwise the provider's steps.
    open spec fn planned(&self, m: Manifest, c: Contexts, r: Result<Vec<Step>, ActionError>) -> bool {
        exists|known: bool| group_planned(*self, known, c, r)
    }

    fn summarize(&self) -> (r: String) {
        let mut s = String::from_str("Creating group ");
        s.append(self.group_name.as_str());
        s
    }

    fn plan(&self, _manifest: &Manifest, contexts: &Contexts) -> (r: Result<Vec<Step>, ActionError>) {
        let known = group_exists(self.group_name.as_str());
        self.plan_given(known, contexts)
    }
}

} // verus!
