use vstd::prelude::*;
use vstd::string::*;

use crate::actions::{Action, ActionError};
use crate::atoms::{Atom, Exec, ExecStatus};
use crate::contexts::{privilege_or_sudo, privilege_provider_or_sudo, Contexts};
use crate::manifest::Manifest;
use crate::steps::Step;
use crate::text::{concat_strings, str_eq};

verus! {

/// The package managers that can install packages.
#[derive(Clone, Copy, Debug, PartialEq, Eq, Structural)]
pub enum PackageProviders {
    Aptitude,
    BsdPkg,
    Dnf,
    Homebrew,
    Macports,
    Pkgin,
    Snapcraft,
    Yay,
    Paru,
    Winget,
    Xbps,
    Zypper,
}

/// Packages to install, with the provider that installs them.
pub struct PackageVariant {
    pub name: Option<String>,
    pub list: Vec<String>,
    pub extra_args: Vec<String>,
    pub provider: PackageProviders,
    pub file: bool,
}

pub type PackageInstall = PackageVariant;

/// A package repository to register with a provider.
pub struct PackageRepository {
    pub name: String,
    pub provider: PackageProviders,
}

/// The packages of a variant: its single name if it has one, else its list.
pub open spec fn packages_of(p: PackageVariant) -> Seq<String> {
    match p.name {
        Some(n) => seq![n],
        None => p.list@,
    }
}

impl PackageVariant {
    /// The packages to install.
    pub fn packages(&self) -> (r: Vec<String>)
        ensures
            r@ == packages_of(*self),
    {
        match &self.name {
            Some(n) => {
                let mut v: Vec<String> = Vec::new();
                v.push(n.clone());
                v
            },
            None => crate::atoms::clone_strings(&self.list),
        }
    }
}

/// What a provider's install step runs: `binary`, then its fixed arguments,
/// the variant's extra arguments and the packages.
pub open spec fn install_step_ok(
    s: Step,
    binary: Seq<char>,
    fixed: Seq<Seq<char>>,
    privileged: bool,
    p: PackageVariant,
    c: Contexts,
) -> bool {
    &&& s.initializers@.len() == 0
    &&& s.finalizers@.len() == 0
    &&& s.atom matches Atom::Exec(e)
    &&& e.command@ == binary
    &&& e.arguments@.len() == fixed.len() + p.extra_args@.len() + packages_of(p).len()
    &&& (forall|i: int| 0 <= i < fixed.len() ==> e.arguments@[i]@ == fixed[i])
    &&& e.arguments@.subrange(fixed.len() as int, e.arguments@.len() as int) == p.extra_args@
        + packages_of(p)
    &&& e.privileged == privileged
    &&& e.privilege_provider@ == privilege_or_sudo(c)
    &&& e.working_dir is None
    &&& e.environment@.len() == 0
}

/// An exec step of `binary` with the given arguments, as the provider runs it.
fn provider_step(binary: &str, arguments: Vec<String>, privileged: bool, contexts: &Contexts) -> (r: Step)
    ensures
        r.initializers@.len() == 0,
        r.finalizers@.len() == 0,
        r.atom matches Atom::Exec(e) && e.command@ == binary@ && e.arguments == arguments
            && e.privileged == privileged && e.privilege_provider@ == privilege_or_sudo(*contexts)
            && e.working_dir is None && e.environment@.len() == 0,
{
    Step::of_atom(
        Atom::Exec(
            Exec {
                command: binary.to_string(),
                arguments,
                working_dir: None,
                environment: Vec::new(),
                privileged,
                privilege_provider: privilege_provider_or_sudo(contexts),
                status: ExecStatus::default(),
            },
        ),
    )
}

/// The install step: `binary`, the fixed arguments, the extra arguments, the packages.
fn install_step(binary: &str, fixed: Vec<String>, privileged: bool, p: &PackageVariant, contexts: &Contexts) -> (r: Step)
    ensures
        install_step_ok(r, binary@, fixed@.map_values(|s: String| s@), privileged, *p, *contexts),
{
    let tail = concat_strings(&p.extra_args, &p.packages());
    let args = concat_strings(&fixed, &tail);
    assert(args@.subrange(fixed@.len() as int, args@.len() as int) =~= tail@);
    provider_step(binary, args, privileged, contexts)
}

/// Relies on which::which: whether an executable of that name is on the search path.
#[verifier::external_body]
fn binary_on_path(binary: &str) -> bool {
    which::which(binary).is_ok()
}

/// Two words as owned strings.
fn words2(a: &str, b: &str) -> (r: Vec<String>)
    ensures
        r@.len() == 2,
        r@[0]@ == a@,
        r@[1]@ == b@,
{
    let mut v: Vec<String> = Vec::new();
    v.push(a.to_string());
    v.push(b.to_string());
    v
}

/// One word as an owned string.
fn words1(a: &str) -> (r: Vec<String>)
    ensures
        r@.len() == 1,
        r@[0]@ == a@,
{
    let mut v: Vec<String> = Vec::new();
    v.push(a.to_string());
    v
}

/// The binary each provider runs.
pub open spec fn provider_binary(p: PackageProviders) -> Seq<char> {
    match p {
        PackageProviders::Aptitude => "apt"@,
        PackageProviders::BsdPkg => "pkg"@,
        PackageProviders::Dnf => "dnf"@,
        PackageProviders::Homebrew => "brew"@,
        PackageProviders::Macports => "port"@,
        PackageProviders::Pkgin => "pkgin"@,
        PackageProviders::Snapcraft => "snap"@,
        PackageProviders::Yay => "yay"@,
        PackageProviders::Paru => "paru"@,
        PackageProviders::Winget => "winget"@,
        PackageProviders::Xbps => "xbps-install"@,
        PackageProviders::Zypper => "zypper"@,
    }
}

/// The fixed arguments with which each provider installs.
pub open spec fn provider_install_args(p: PackageProviders) -> Seq<Seq<char>> {
    match p {
        PackageProviders::Aptitude => seq!["install"@, "--yes"@],
        PackageProviders::BsdPkg => seq!["install"@, "-y"@],
        PackageProviders::Dnf => seq!["install"@, "-y"@],
        PackageProviders::Homebrew => seq!["install"@],
        PackageProviders::Macports => seq!["install"@],
        PackageProviders::Pkgin => seq!["-y"@, "install"@],
        PackageProviders::Snapcraft => seq!["install"@, "--yes"@],
        PackageProviders::Yay => seq!["-S"@, "--noconfirm"@],
        PackageProviders::Paru => seq!["-S"@, "--noconfirm"@],
        PackageProviders::Winget => seq!["install"@, "--silent"@],
        PackageProviders::Xbps => seq!["-S"@, "-y"@],
        PackageProviders::Zypper => seq!["install"@, "-y"@],
    }
}

/// Whether each provider installs as the superuser: the AUR helpers and the
/// user-level managers refuse to, the system managers need to.
pub open spec fn provider_privileged(p: PackageProviders) -> bool {
    !(p is Homebrew || p is Yay || p is Paru || p is Winget)
}

/// Installs packages through one package manager.
pub trait PackageProvider {
    fn name(&self) -> String;

    fn available(&self) -> bool;

    fn bootstrap(&self, contexts: &Contexts) -> Vec<Step>;

    fn has_repository(&self, repository: &PackageRepository) -> bool;

    fn add_repository(&self, repository: &PackageRepository, contexts: &Contexts) -> Result<Vec<Step>, ActionError>;

    fn query(&self, package: &PackageVariant) -> Result<Vec<String>, ActionError>;

    fn install(&self, package: &PackageVariant, contexts: &Contexts) -> Result<Vec<Step>, ActionError>;
}

/// The openSUSE package manager.
pub struct Zypper {}

/// The snap package manager, installed through apt where it is missing.
pub struct Snapcraft {}

/// A package manager driven by one command line.
pub struct CommandLineProvider {
    pub kind: PackageProviders,
}

/// The providers, each with its own way of working.
pub enum Provider {
    Zypper(Zypper),
    Snapcraft(Snapcraft),
    CommandLine(CommandLineProvider),
}

impl Zypper {
    /// `zypper install -y`, the extra arguments and the packages, as the superuser.
    pub fn install_steps(&self, package: &PackageVariant, contexts: &Contexts) -> (r: Vec<Step>)
        ensures
            r@.len() == 1,
            install_step_ok(r@[0], "zypper"@, seq!["install"@, "-y"@], true, *package, *contexts),
    {
        let fixed = words2("install", "-y");
        let s = install_step("zypper", fixed, true, package, contexts);
        assert(fixed@.map_values(|s: String| s@) =~= seq!["install"@, "-y"@]);
        let mut v: Vec<Step> = Vec::new();
        v.push(s);
        v
    }
}

impl PackageProvider for Zypper {
    fn name(&self) -> (r: String)
        ensures
            r@ == "Zypper"@,
    {
        String::from_str("Zypper")
    }

    fn available(&self) -> bool {
        binary_on_path("zypper")
    }

    fn bootstrap(&self, _contexts: &Contexts) -> (r: Vec<Step>)
        ensures
            r@.len() == 0,
    {
        Vec::new()
    }

    fn has_repository(&self, _repository: &PackageRepository) -> (r: bool)
        ensures
            !r,
    {
        false
    }

    fn add_repository(&self, _repository: &PackageRepository, _contexts: &Contexts) -> (r: Result<Vec<Step>, ActionError>)
        ensures
            r matches Ok(v) && v@.len() == 0,
    {
        Ok(Vec::new())
    }

    fn query(&self, package: &PackageVariant) -> (r: Result<Vec<String>, ActionError>)
        ensures
            r matches Ok(v) && v@ == packages_of(*package),
    {
        Ok(package.packages())
    }

    fn install(&self, package: &PackageVariant, contexts: &Contexts) -> (r: Result<Vec<Step>, ActionError>)
        ensures
            r matches Ok(v) && v@.len() == 1 && install_step_ok(v@[0], "zypper"@, seq!["install"@, "-y"@], true, *package, *contexts),
    {
        Ok(self.install_steps(package, contexts))
    }
}

impl Snapcraft {
    /// `snap install --yes`, the extra arguments and the packages, as the superuser.
    pub fn install_steps(&self, package: &PackageVariant, contexts: &Contexts) -> (r: Vec<Step>)
        ensures
            r@.len() == 1,
            install_step_ok(r@[0], "snap"@, seq!["install"@, "--yes"@], true, *package, *contexts),
    {
        let fixed = words2("install", "--yes");
        let s = install_step("snap", fixed, true, package, contexts);
        assert(fixed@.map_values(|s: String| s@) =~= seq!["install"@, "--yes"@]);
        let mut v: Vec<Step> = Vec::new();
        v.push(s);
        v
    }

    /// `apt install --yes snapd`, as the superuser.
    pub fn bootstrap_steps(&self, contexts: &Contexts) -> (r: Vec<Step>)
        ensures
            r@.len() == 1,
            r@[0].atom matches Atom::Exec(e) && e.command@ == "apt"@ && e.arguments@.len() == 3
                && e.arguments@[0]@ == "install"@ && e.arguments@[1]@ == "--yes"@
                && e.arguments@[2]@ == "snapd"@ && e.privileged && e.privilege_provider@
                == privilege_or_sudo(*contexts),
    {
        let mut args = words2("install", "--yes");
        args.push(String::from_str("snapd"));
        let mut v: Vec<Step> = Vec::new();
        v.push(provider_step("apt", args, true, contexts));
        v
    }
}

impl PackageProvider for Snapcraft {
    fn name(&self) -> (r: String)
        ensures
            r@ == "Snapcraft"@,
    {
        String::from_str("Snapcraft")
    }

    fn available(&self) -> bool {
        binary_on_path("snap")
    }

    fn bootstrap(&self, contexts: &Contexts) -> (r: Vec<Step>)
        ensures
            r@.len() == 1,
    {
        self.bootstrap_steps(contexts)
    }

    fn has_repository(&self, _repository: &PackageRepository) -> (r: bool)
        ensures
            !r,
    {
        false
    }

    fn add_repository(&self, _repository: &PackageRepository, _contexts: &Contexts) -> (r: Result<Vec<Step>, ActionError>)
        ensures
            r matches Ok(v) && v@.len() == 0,
    {
        Ok(Vec::new())
    }

    fn query(&self, package: &PackageVariant) -> (r: Result<Vec<String>, ActionError>)
        ensures
            r matches Ok(v) && v@ == packages_of(*package),
    {
        Ok(package.packages())
    }

    fn install(&self, package: &PackageVariant, contexts: &Contexts) -> (r: Result<Vec<Step>, ActionError>)
        ensures
            r matches Ok(v) && v@.len() == 1 && install_step_ok(v@[0], "snap"@, seq!["install"@, "--yes"@], true, *package, *contexts),
    {
        Ok(self.install_steps(package, contexts))
    }
}

impl PackageProviders {
    /// The binary the provider runs.
    pub fn binary(&self) -> (r: &'static str)
        ensures
            r@ == provider_binary(*self),
    {
        match self {
            PackageProviders::Aptitude => "apt",
            PackageProviders::BsdPkg => "pkg",
            PackageProviders::Dnf => "dnf",
            PackageProviders::Homebrew => "brew",
            PackageProviders::Macports => "port",
            PackageProviders::Pkgin => "pkgin",
            PackageProviders::Snapcraft => "snap",
            PackageProviders::Yay => "yay",
            PackageProviders::Paru => "paru",
            PackageProviders::Winget => "winget",
            PackageProviders::Xbps => "xbps-install",
            PackageProviders::Zypper => "zypper",
        }
    }

    /// The fixed arguments with which the provider installs.
    pub fn install_args(&self) -> (r: Vec<String>)
        ensures
            r@.map_values(|s: String| s@) == provider_install_args(*self),
    {
        let r = match self {
            PackageProviders::Aptitude => words2("install", "--yes"),
            PackageProviders::BsdPkg => words2("install", "-y"),
            PackageProviders::Dnf => words2("install", "-y"),
            PackageProviders::Homebrew => words1("install"),
            PackageProviders::Macports => words1("install"),
            PackageProviders::Pkgin => words2("-y", "install"),
            PackageProviders::Snapcraft => words2("install", "--yes"),
            PackageProviders::Yay => words2("-S", "--noconfirm"),
            PackageProviders::Paru => words2("-S", "--noconfirm"),
            PackageProviders::Winget => words2("install", "--silent"),
            PackageProviders::Xbps => words2("-S", "-y"),
            PackageProviders::Zypper => words2("install", "-y"),
        };
        assert(r@.map_values(|s: String| s@) =~= provider_install_args(*self));
        r
    }

    /// The provider that does the work.
    pub fn get_provider(self) -> (r: Provider)
        ensures
            self is Zypper ==> r is Zypper,
            self is Snapcraft ==> r is Snapcraft,
            !(self is Zypper || self is Snapcraft) ==> (r matches Provider::CommandLine(p) && p.kind == self),
            r.kind_of() == self,
            provider_name(r) == if self is Zypper {
                "Zypper"@
            } else if self is Snapcraft {
                "Snapcraft"@
            } else {
                provider_binary(self)
            },
    {
        match self {
            PackageProviders::Zypper => Provider::Zypper(Zypper {}),
            PackageProviders::Snapcraft => Provider::Snapcraft(Snapcraft {}),
            _ => Provider::CommandLine(CommandLineProvider { kind: self }),
        }
    }
}

impl CommandLineProvider {
    /// The provider's binary with its fixed arguments, the extra arguments and the packages.
    pub fn install_steps(&self, package: &PackageVariant, contexts: &Contexts) -> (r: Vec<Step>)
        ensures
            r@.len() == 1,
            install_step_ok(
                r@[0],
                provider_binary(self.kind),
                provider_install_args(self.kind),
                provider_privileged(self.kind),
                *package,
                *contexts,
            ),
    {
        let privileged = match self.kind {
            PackageProviders::Homebrew | PackageProviders::Yay | PackageProviders::Paru
            | PackageProviders::Winget => false,
            _ => true,
        };
        let s = install_step(self.kind.binary(), self.kind.install_args(), privileged, package, contexts);
        let mut v: Vec<Step> = Vec::new();
        v.push(s);
        v
    }
}

impl PackageProvider for CommandLineProvider {
    fn name(&self) -> (r: String)
        ensures
            r@ == provider_binary(self.kind),
    {
        self.kind.binary().to_string()
    }

    fn available(&self) -> bool {
        binary_on_path(self.kind.binary())
    }

    fn bootstrap(&self, _contexts: &Contexts) -> (r: Vec<Step>)
        ensures
            r@.len() == 0,
    {
        Vec::new()
    }

    fn has_repository(&self, _repository: &PackageRepository) -> (r: bool)
        ensures
            !r,
    {
        false
    }

    fn add_repository(&self, repository: &PackageRepository, contexts: &Contexts) -> (r: Result<Vec<Step>, ActionError>)
        ensures
            r matches Ok(v) && registers_repository(self.kind, *repository, *contexts, v@),
    {
        let provider = Provider::CommandLine(CommandLineProvider { kind: self.kind });
        Ok(provider.repository_steps(repository, contexts))
    }

    fn query(&self, package: &PackageVariant) -> (r: Result<Vec<String>, ActionError>)
        ensures
            r matches Ok(v) && v@ == packages_of(*package),
    {
        Ok(package.packages())
    }

    fn install(&self, package: &PackageVariant, contexts: &Contexts) -> (r: Result<Vec<Step>, ActionError>)
        ensures
            r matches Ok(v) && v@.len() == 1 && install_step_ok(v@[0], provider_binary(self.kind), provider_install_args(self.kind), provider_privileged(self.kind), *package, *contexts),
    {
        Ok(self.install_steps(package, contexts))
    }
}

/// The name each provider gives itself.
pub open spec fn provider_name(p: Provider) -> Seq<char> {
    match p {
        Provider::Zypper(_) => "Zypper"@,
        Provider::Snapcraft(_) => "Snapcraft"@,
        Provider::CommandLine(c) => provider_binary(c.kind),
    }
}

impl PackageProvider for Provider {
    fn name(&self) -> (r: String)
        ensures
            r@ == provider_name(*self),
    {
        match self {
            Provider::Zypper(p) => p.name(),
            Provider::Snapcraft(p) => p.name(),
            Provider::CommandLine(p) => p.name(),
        }
    }

    fn available(&self) -> bool {
        match self {
            Provider::Zypper(p) => p.available(),
            Provider::Snapcraft(p) => p.available(),
            Provider::CommandLine(p) => p.available(),
        }
    }

    fn bootstrap(&self, contexts: &Contexts) -> (r: Vec<Step>)
        ensures
            r@.len() == (if self is Snapcraft { 1int } else { 0int }),
    {
        match self {
            Provider::Zypper(p) => p.bootstrap(contexts),
            Provider::Snapcraft(p) => p.bootstrap(contexts),
            Provider::CommandLine(p) => p.bootstrap(contexts),
        }
    }

    fn has_repository(&self, repository: &PackageRepository) -> (r: bool)
        ensures
            !r,
    {
        match self {
            Provider::Zypper(p) => p.has_repository(repository),
            Provider::Snapcraft(p) => p.has_repository(repository),
            Provider::CommandLine(p) => p.has_repository(repository),
        }
    }

    fn add_repository(&self, repository: &PackageRepository, contexts: &Contexts) -> (r: Result<Vec<Step>, ActionError>)
        ensures
            r matches Ok(v) && registers_repository(self.kind_of(), *repository, *contexts, v@),
    {
        match self {
            Provider::Zypper(p) => p.add_repository(repository, contexts),
            Provider::Snapcraft(p) => p.add_repository(repository, contexts),
            Provider::CommandLine(p) => p.add_repository(repository, contexts),
        }
    }

    fn query(&self, package: &PackageVariant) -> (r: Result<Vec<String>, ActionError>)
        ensures
            r matches Ok(v) && v@ == packages_of(*package),
    {
        match self {
            Provider::Zypper(p) => p.query(package),
            Provider::Snapcraft(p) => p.query(package),
            Provider::CommandLine(p) => p.query(package),
        }
    }

    fn install(&self, package: &PackageVariant, contexts: &Contexts) -> (r: Result<Vec<Step>, ActionError>)
        ensures
            r matches Ok(v) && v@.len() == 1 && install_step_ok(
                v@[0],
                provider_binary(self.kind_of()),
                provider_install_args(self.kind_of()),
                provider_privileged(self.kind_of()),
                *package,
                *contexts,
            ),
    {
        match self {
            Provider::Zypper(p) => p.install(package, contexts),
            Provider::Snapcraft(p) => p.install(package, contexts),
            Provider::CommandLine(p) => p.install(package, contexts),
        }
    }
}

/// The default provider for an operating system, by the name the host reports;
/// `None` where there is no default.
pub open spec fn default_provider_for(os: Seq<char>) -> Option<PackageProviders> {
    if os == "Arch Linux"@ || os == "Artix Linux"@ || os == "CachyOS Linux"@ || os == "EndeavourOS"@
        || os == "Manjaro"@ {
        Some(PackageProviders::Yay)
    } else if os == "DragonFly BSD"@ || os == "FreeBSD"@ {
        Some(PackageProviders::BsdPkg)
    } else if os == "NetBSD"@ {
        Some(PackageProviders::Pkgin)
    } else if os == "Debian"@ || os == "Linux Mint"@ || os == "Pop!_OS"@ || os == "Ubuntu"@ {
        Some(PackageProviders::Aptitude)
    } else if os == "openSUSE"@ || os == "SUSE Linux Enterprise Server"@ {
        Some(PackageProviders::Zypper)
    } else if os == "Fedora"@ || os == "Red Hat Linux"@ || os == "Red Hat Enterprise Linux"@
        || os == "CentOS"@ || os == "Oracle Linux"@ {
        Some(PackageProviders::Dnf)
    } else if os == "Mac OS"@ {
        Some(PackageProviders::Homebrew)
    } else if os == "Windows"@ {
        Some(PackageProviders::Winget)
    } else {
        None
    }
}

/// No package manager is known to be the default on the host.
pub struct NoDefaultProvider {
    pub os: String,
}

/// The default provider for the operating system called `os`.
pub fn default_provider_for_os(os: &str) -> (r: Result<PackageProviders, NoDefaultProvider>)
    ensures
        r matches Ok(p) ==> default_provider_for(os@) == Some(p),
        r matches Err(e) ==> default_provider_for(os@) is None && e.os@ == os@,
{
    proof {
        reveal_strlit("Arch Linux");
        reveal_strlit("Artix Linux");
        reveal_strlit("CachyOS Linux");
        reveal_strlit("EndeavourOS");
        reveal_strlit("Manjaro");
        reveal_strlit("DragonFly BSD");
        reveal_strlit("FreeBSD");
        reveal_strlit("NetBSD");
        reveal_strlit("Debian");
        reveal_strlit("Linux Mint");
        reveal_strlit("Pop!_OS");
        reveal_strlit("Ubuntu");
        reveal_strlit("Oracle Linux");
        reveal_strlit("openSUSE");
        reveal_strlit("SUSE Linux Enterprise Server");
        reveal_strlit("Fedora");
        reveal_strlit("Red Hat Linux");
        reveal_strlit("Red Hat Enterprise Linux");
        reveal_strlit("CentOS");
        reveal_strlit("Mac OS");
        reveal_strlit("Windows");
    }
    if str_eq(os, "Arch Linux") || str_eq(os, "Artix Linux") || str_eq(os, "CachyOS Linux")
        || str_eq(os, "EndeavourOS") || str_eq(os, "Manjaro") {
        Ok(PackageProviders::Yay)
    } else if str_eq(os, "DragonFly BSD") || str_eq(os, "FreeBSD") {
        Ok(PackageProviders::BsdPkg)
    } else if str_eq(os, "NetBSD") {
        Ok(PackageProviders::Pkgin)
    } else if str_eq(os, "Debian") || str_eq(os, "Linux Mint") || str_eq(os, "Pop!_OS")
        || str_eq(os, "Ubuntu") {
        Ok(PackageProviders::Aptitude)
    } else if str_eq(os, "openSUSE") || str_eq(os, "SUSE Linux Enterprise Server") {
        Ok(PackageProviders::Zypper)
    } else if str_eq(os, "Fedora") || str_eq(os, "Red Hat Linux") || str_eq(
        os,
        "Red Hat Enterprise Linux",
    ) || str_eq(os, "CentOS") || str_eq(os, "Oracle Linux") {
        Ok(PackageProviders::Dnf)
    } else if str_eq(os, "Mac OS") {
        Ok(PackageProviders::Homebrew)
    } else if str_eq(os, "Windows") {
        Ok(PackageProviders::Winget)
    } else {
        Err(NoDefaultProvider { os: os.to_string() })
    }
}

/// Relies on os_info::get and the `Display` of os_info::Type: the name of the
/// host's operating system, as os_info detects it.
#[verifier::external_body]
fn host_os_name() -> String {
    os_info::get().os_type().to_string()
}

/// The default provider for the host's operating system.
pub fn default_provider() -> (r: Result<PackageProviders, NoDefaultProvider>)
    ensures
        r matches Ok(p) ==> exists|os: Seq<char>| default_provider_for(os) == Some(p),
        r matches Err(e) ==> default_provider_for(e.os@) is None,
{
    let os = host_os_name();
    default_provider_for_os(os.as_str())
}

/// How many steps install each provider where its binary is missing.
pub open spec fn bootstrap_count(p: PackageProviders) -> nat {
    if p is Snapcraft {
        1
    } else {
        0
    }
}

impl Provider {
    /// Which package manager this is.
    pub open spec fn kind_of(&self) -> PackageProviders {
        match self {
            Provider::Zypper(_) => PackageProviders::Zypper,
            Provider::Snapcraft(_) => PackageProviders::Snapcraft,
            Provider::CommandLine(p) => p.kind,
        }
    }

    /// Which package manager this is.
    pub fn kind(&self) -> (r: PackageProviders)
        ensures
            r == self.kind_of(),
    {
        match self {
            Provider::Zypper(_) => PackageProviders::Zypper,
            Provider::Snapcraft(_) => PackageProviders::Snapcraft,
            Provider::CommandLine(p) => p.kind,
        }
    }

    /// The single step that installs the packages.
    pub fn install_steps(&self, package: &PackageVariant, contexts: &Contexts) -> (r: Vec<Step>)
        ensures
            r@.len() == 1,
            install_step_ok(
                r@[0],
                provider_binary(self.kind_of()),
                provider_install_args(self.kind_of()),
                provider_privileged(self.kind_of()),
                *package,
                *contexts,
            ),
    {
        match self {
            Provider::Zypper(p) => p.install_steps(package, contexts),
            Provider::Snapcraft(p) => p.install_steps(package, contexts),
            Provider::CommandLine(p) => p.install_steps(package, contexts),
        }
    }

    /// The steps that install the provider itself.
    pub fn bootstrap_steps(&self, contexts: &Contexts) -> (r: Vec<Step>)
        ensures
            r@.len() == bootstrap_count(self.kind_of()),
            bootstraps_provider(self.kind_of(), *contexts, r@),
    {
        match self.kind() {
            PackageProviders::Snapcraft => Snapcraft {}.bootstrap_steps(contexts),
            _ => Vec::new(),
        }
    }

    /// The steps that register a repository, for the providers that take one.
    pub fn repository_steps(&self, repository: &PackageRepository, contexts: &Contexts) -> (r: Vec<Step>)
        ensures
            registers_repository(self.kind_of(), *repository, *contexts, r@),
    {
        let mut steps: Vec<Step> = Vec::new();
        match self.kind() {
            PackageProviders::Aptitude => {
                let mut args = words1("-y");
                args.push(repository.name.clone());
                steps.push(provider_step("add-apt-repository", args, true, contexts));
            },
            PackageProviders::Homebrew => {
                let mut args = words1("tap");
                args.push(repository.name.clone());
                steps.push(provider_step("brew", args, false, contexts));
            },
            _ => {},
        }
        steps
    }
}

/// The steps register the repository: `add-apt-repository -y` as the superuser
/// for apt, `brew tap` for Homebrew; the other providers take no repositories.
pub open spec fn registers_repository(p: PackageProviders, repo: PackageRepository, c: Contexts, v: Seq<Step>) -> bool {
    match p {
        PackageProviders::Aptitude => v.len() == 1 && (v[0].atom matches Atom::Exec(e) && e.command@
            == "add-apt-repository"@ && e.arguments@.len() == 2 && e.arguments@[0]@ == "-y"@
            && e.arguments@[1] == repo.name && e.privileged && e.privilege_provider@ == privilege_or_sudo(c)),
        PackageProviders::Homebrew => v.len() == 1 && (v[0].atom matches Atom::Exec(e) && e.command@ == "brew"@
            && e.arguments@.len() == 2 && e.arguments@[0]@ == "tap"@ && e.arguments@[1] == repo.name
            && !e.privileged),
        _ => v.len() == 0,
    }
}

/// The steps install the provider itself: snap through `apt install --yes snapd`
/// as the superuser; the other providers need none.
pub open spec fn bootstraps_provider(p: PackageProviders, c: Contexts, v: Seq<Step>) -> bool {
    if p is Snapcraft {
        v.len() == 1 && (v[0].atom matches Atom::Exec(e) && e.command@ == "apt"@ && e.arguments@.len() == 3
            && e.arguments@[0]@ == "install"@ && e.arguments@[1]@ == "--yes"@ && e.arguments@[2]@ == "snapd"@
            && e.privileged && e.privilege_provider@ == privilege_or_sudo(c))
    } else {
        v.len() == 0
    }
}

/// The step list installs the packages with their provider in one step; where
/// the provider's binary is not `available`, the provider's bootstrap steps come first.
pub open spec fn installs_packages(p: PackageVariant, c: Contexts, available: bool, v: Seq<Step>) -> bool {
    &&& v.len() == if available {
        1
    } else {
        1 + bootstrap_count(p.provider)
    }
    &&& !available ==> bootstraps_provider(p.provider, c, v.subrange(0, v.len() - 1))
    &&& install_step_ok(
        v.last(),
        provider_binary(p.provider),
        provider_install_args(p.provider),
        provider_privileged(p.provider),
        p,
        c,
    )
}

/// The plan of a package install, given whether the provider's binary is on the search path.
pub fn install_plan_given(package: &PackageVariant, contexts: &Contexts, available: bool) -> (r: Result<Vec<Step>, ActionError>)
    ensures
        r matches Ok(v) && installs_packages(*package, *contexts, available, v@),
{
    let provider = package.provider.get_provider();
    let mut steps: Vec<Step> = Vec::new();
    if !available {
        steps = provider.bootstrap_steps(contexts);
    }
    let ghost boot = steps@;
    let mut install = provider.install_steps(package, contexts);
    steps.append(&mut install);
    assert(steps@.subrange(0, steps@.len() - 1) =~= boot);
    Ok(steps)
}

/// Installs the packages, after bootstrapping the provider where its binary is missing.
pub fn install_plan(package: &PackageVariant, contexts: &Contexts) -> (r: Result<Vec<Step>, ActionError>)
    ensures
        r matches Ok(v) && exists|available: bool| installs_packages(*package, *contexts, available, v@),
{
    let available = package.provider.get_provider().available();
    install_plan_given(package, contexts, available)
}

impl Action for PackageVariant {
    open spec fn summary(&self) -> Seq<char> {
        "Installing packages with "@ + provider_binary(self.provider)
    }

    /// The install step, after the bootstrap steps where the binary is missing.
    open spec fn planned(&self, m: Manifest, c: Contexts, r: Result<Vec<Step>, ActionError>) -> bool {
        r matches Ok(v) && exists|available: bool| installs_packages(*self, c, available, v@)
    }

    fn summarize(&self) -> (r: String) {
        let mut s = String::from_str("Installing packages with ");
        s.append(self.provider.binary());
        s
    }

    fn plan(&self, _manifest: &Manifest, contexts: &Contexts) -> (r: Result<Vec<Step>, ActionError>) {
        install_plan(self, contexts)
    }
}

impl Action for PackageRepository {
    open spec fn summary(&self) -> Seq<char> {
        "Adding repository "@ + self.name@
    }

    /// The provider's repository steps; none for a provider that takes no repositories.
    open spec fn planned(&self, m: Manifest, c: Contexts, r: Result<Vec<Step>, ActionError>) -> bool {
        r matches Ok(v) && registers_repository(self.provider, *self, c, v@)
    }

    fn summarize(&self) -> (r: String) {
        let mut s = String::from_str("Adding repository ");
        s.append(self.name.as_str());
        s
    }

    fn plan(&self, _manifest: &Manifest, contexts: &Contexts) -> (r: Result<Vec<Step>, ActionError>) {
        let provider = self.provider.get_provider();
        Ok(provider.repository_steps(self, contexts))
    }
}

} // verus!
