use vstd::prelude::*;
use vstd::string::*;

use crate::text::{contains_chars, contains_seq, lower_seq, lowered_chars, str_eq};

verus! {

/// What planning an atom found: the changes it would make, and whether it must run.
pub struct Outcome {
    pub side_effects: Vec<String>,
    pub should_run: bool,
}

/// What a finished process left behind.
pub struct ExecStatus {
    pub code: i32,
    pub stdout: String,
    pub stderr: String,
}

impl Default for ExecStatus {
    fn default() -> (r: ExecStatus)
        ensures
            r.code == 0,
            r.stdout@.len() == 0,
            r.stderr@.len() == 0,
    {
        ExecStatus { code: 0, stdout: String::new(), stderr: String::new() }
    }
}

/// An atom that runs one process.
pub struct Exec {
    pub command: String,
    pub arguments: Vec<String>,
    pub working_dir: Option<String>,
    pub environment: Vec<(String, String)>,
    pub privileged: bool,
    pub privilege_provider: String,
    pub status: ExecStatus,
}

impl Default for Exec {
    fn default() -> (r: Exec)
        ensures
            r.command@.len() == 0,
            r.arguments@.len() == 0,
            r.working_dir is None,
            r.environment@.len() == 0,
            !r.privileged,
            r.privilege_provider@.len() == 0,
            r.status.code == 0,
            r.status.stdout@.len() == 0,
            r.status.stderr@.len() == 0,
    {
        Exec {
            command: String::new(),
            arguments: Vec::new(),
            working_dir: None,
            environment: Vec::new(),
            privileged: false,
            privilege_provider: String::new(),
            status: ExecStatus::default(),
        }
    }
}

/// An exec atom for `command`, with no arguments, environment or elevation.
pub fn new_run_command(command: String) -> (r: Exec)
    ensures
        r.command == command,
        r.arguments@.len() == 0,
        r.working_dir is None,
        r.environment@.len() == 0,
        !r.privileged,
        r.privilege_provider@.len() == 0,
        r.status.code == 0,
        r.status.stdout@.len() == 0,
        r.status.stderr@.len() == 0,
{
    let d = Exec::default();
    Exec { command, ..d }
}

/// The severity given to one line of a child's output.
#[derive(Clone, Copy, Debug, PartialEq, Eq, Structural)]
pub enum LogLevel {
    Error,
    Warn,
    Info,
}

/// A line that mentions "error" in any case is an error, one that mentions
/// "warn" a warning, and any other line is information.
pub open spec fn line_level(line: Seq<char>) -> LogLevel {
    if contains_seq(lower_seq(line), "error"@) {
        LogLevel::Error
    } else if contains_seq(lower_seq(line), "warn"@) {
        LogLevel::Warn
    } else {
        LogLevel::Info
    }
}

/// The level at which a line of a child's output is reported.
pub fn classify_and_log_message(line: &str) -> (r: LogLevel)
    ensures
        r == line_level(line@),
{
    let little = lowered_chars(line);
    let error_word = crate::text::str_chars("error");
    let warn_word = crate::text::str_chars("warn");
    if contains_chars(&little, &error_word) {
        LogLevel::Error
    } else if contains_chars(&little, &warn_word) {
        LogLevel::Warn
    } else {
        LogLevel::Info
    }
}

/// A copy of a list of strings.
pub fn clone_strings(v: &Vec<String>) -> (r: Vec<String>)
    ensures
        r@ == v@,
{
    let r = v.clone();
    assert(r@ =~= v@);
    r
}

/// The command that runs for an exec atom when `user` is the current user.
pub open spec fn elevated_command(e: Exec, user: Seq<char>) -> String {
    if !e.privileged || user == "root"@ {
        e.command
    } else {
        e.privilege_provider
    }
}

/// The arguments that run for an exec atom when `user` is the current user:
/// an elevated run hands the whole command line to the helper.
pub open spec fn elevated_arguments(e: Exec, user: Seq<char>) -> Seq<String> {
    if !e.privileged || user == "root"@ {
        e.arguments@
    } else {
        seq![e.command] + e.arguments@
    }
}

/// The words of `args` joined by single spaces.
pub open spec fn join_spaced(args: Seq<String>) -> Seq<char>
    decreases args.len(),
{
    if args.len() == 0 {
        Seq::empty()
    } else if args.len() == 1 {
        args[0]@
    } else {
        join_spaced(args.drop_last()) + " "@ + args.last()@
    }
}

/// When the current user is root, an exec atom runs its own command line whether
/// it asks for privileges or not: two atoms with the same command and arguments
/// run the same command line.
pub proof fn elevation_as_root_is_idempotent(a: Exec, b: Exec)
    requires
        a.command == b.command,
        a.arguments@ == b.arguments@,
    ensures
        elevated_command(a, "root"@) == elevated_command(b, "root"@),
        elevated_arguments(a, "root"@) == elevated_arguments(b, "root"@),
        elevated_command(a, "root"@) == a.command,
        elevated_arguments(a, "root"@) == a.arguments@,
{
}

/// Relies on whoami::username: the name of the user that runs this process.
#[verifier::external_body]
fn current_username() -> String {
    whoami::username()
}

impl Exec {
    /// The command and arguments to run when `username` is the current user.
    pub fn elevate_for(&self, username: &str) -> (r: (String, Vec<String>))
        ensures
            r.0 == elevated_command(*self, username@),
            r.1@ == elevated_arguments(*self, username@),
    {
        proof {
            reveal_strlit("root");
        }
        if !self.privileged || str_eq(username, "root") {
            (self.command.clone(), clone_strings(&self.arguments))
        } else {
            let mut args: Vec<String> = Vec::new();
            args.push(self.command.clone());
            let mut i: usize = 0;
            while i < self.arguments.len()
                invariant
                    i <= self.arguments@.len(),
                    args@ == seq![self.command] + self.arguments@.subrange(0, i as int),
                decreases self.arguments@.len() - i,
            {
                args.push(self.arguments[i].clone());
                i = i + 1;
                assert(args@ =~= seq![self.command] + self.arguments@.subrange(0, i as int));
            }
            assert(self.arguments@.subrange(0, i as int) =~= self.arguments@);
            (self.privilege_provider.clone(), args)
        }
    }

    /// The command and arguments to run as the current user.
    pub fn elevate_if_required(&self) -> (r: (String, Vec<String>))
        ensures
            exists|user: Seq<char>|
                r.0 == elevated_command(*self, user) && r.1@ == elevated_arguments(*self, user),
    {
        let user = current_username();
        self.elevate_for(user.as_str())
    }

    /// Planning an exec atom: its effects cannot be known beforehand, so it always runs.
    pub fn plan(&self) -> (r: Outcome)
        ensures
            r.side_effects@.len() == 0,
            r.should_run,
    {
        Outcome { side_effects: Vec::new(), should_run: true }
    }

    /// Records what the finished process left behind.
    pub fn record_status(&mut self, code: i32, stdout: String, stderr: String)
        ensures
            final(self).status.code == code,
            final(self).status.stdout == stdout,
            final(self).status.stderr == stderr,
            final(self).command == old(self).command,
            final(self).arguments == old(self).arguments,
            final(self).working_dir == old(self).working_dir,
            final(self).environment == old(self).environment,
            final(self).privileged == old(self).privileged,
            final(self).privilege_provider == old(self).privilege_provider,
    {
        self.status = ExecStatus { code, stdout, stderr };
    }

    /// What the process wrote to its standard output.
    pub fn output_string(&self) -> (r: String)
        ensures
            r == self.status.stdout,
    {
        self.status.stdout.clone()
    }

    /// What the process wrote to its standard error.
    pub fn error_message(&self) -> (r: String)
        ensures
            r == self.status.stderr,
    {
        self.status.stderr.clone()
    }

    /// A one-line description of the atom.
    pub fn describe(&self) -> (r: String)
        ensures
            r@ == "CommandExec with: privileged="@ + (if self.privileged {
                "true"@
            } else {
                "false"@
            }) + ": "@ + self.command@ + " "@ + join_spaced(self.arguments@),
    {
        let mut s = String::from_str("CommandExec with: privileged=");
        if self.privileged {
            s.append("true");
        } else {
            s.append("false");
        }
        s.append(": ");
        s.append(self.command.as_str());
        s.append(" ");
        s.append(join_words(&self.arguments).as_str());
        s
    }
}

/// Why running a process failed.
pub enum ExecError {
    /// The command is not on the search path.
    CommandNotFound { command: String },
    /// The process ended with a non-zero exit code.
    NonZeroExit { code: i32, stderr: String },
    /// The process could not be started or waited for.
    IoError { message: String },
    /// The elevation helper refused the credentials.
    ElevationDenied { stderr: String },
}

/// The outcome of a process that ran to its end: success, or its exit code and error output.
pub fn exit_result(success: bool, code: i32, stderr: String) -> (r: Result<(), ExecError>)
    ensures
        success ==> r is Ok,
        !success ==> (r matches Err(ExecError::NonZeroExit { code: c, stderr: e }) && c == code && e == stderr),
{
    if success {
        Ok(())
    } else {
        Err(ExecError::NonZeroExit { code, stderr })
    }
}

/// The flag to validate credentials with before running `command`, when
/// `command` is an elevation helper that has one.
pub fn validation_flag_for(command: &str) -> (r: Option<String>)
    ensures
        r matches Some(f) ==> exists|p: crate::privilege::Privilege|
            crate::privilege::privilege_name(p) == command@ && crate::privilege::privilege_validate_flag(p)
                == Some(f@),
        r is None ==> forall|p: crate::privilege::Privilege|
            crate::privilege::privilege_name(p) == command@ ==> crate::privilege::privilege_validate_flag(p) is None,
{
    match crate::privilege::Privilege::from_name(command) {
        Some(p) => {
            let f = p.validate_flag();
            proof {
                assert forall|q: crate::privilege::Privilege| crate::privilege::privilege_name(q) == command@
                    implies q == p by {
                    crate::privilege::privilege_names_are_distinct(p, q);
                }
            }
            f
        },
        None => None,
    }
}

impl Exec {
    /// The command line to retry through the elevation helper `helper` when an
    /// unprivileged start was refused for lack of permission.
    pub fn fallback_invocation(&self, helper: &str) -> (r: (String, Vec<String>))
        ensures
            r.0@ == helper@,
            r.1@ == seq![self.command] + self.arguments@,
    {
        let mut args: Vec<String> = Vec::new();
        args.push(self.command.clone());
        let rest = clone_strings(&self.arguments);
        let all = crate::text::concat_strings(&args, &rest);
        assert(args@ =~= seq![self.command]);
        (helper.to_string(), all)
    }
}

/// The words of `args` joined by single spaces.
pub fn join_words(args: &Vec<String>) -> (r: String)
    ensures
        r@ == join_spaced(args@),
{
    let mut s = String::new();
    let mut i: usize = 0;
    while i < args.len()
        invariant
            i <= args@.len(),
            s@ == join_spaced(args@.subrange(0, i as int)),
        decreases args@.len() - i,
    {
        proof {
            let next = args@.subrange(0, i + 1);
            assert(next.drop_last() =~= args@.subrange(0, i as int));
        }
        if i > 0 {
            s.append(" ");
        }
        s.append(args[i].as_str());
        i = i + 1;
    }
    assert(args@.subrange(0, i as int) =~= args@);
    s
}

/// The smallest executable units.
pub enum Atom {
    /// Runs a process.
    Exec(Exec),
    /// Clones a repository into a directory.
    GitClone { repository: String, directory: String },
    /// Writes a message to the log.
    Echo(String),
}

impl Atom {
    /// Plans the atom without touching the system: every atom kind here runs when asked.
    pub fn plan(&self) -> (r: Outcome)
        ensures
            r.should_run,
            r.side_effects@.len() == 0,
    {
        match self {
            Atom::Exec(e) => e.plan(),
            _ => Outcome { side_effects: Vec::new(), should_run: true },
        }
    }
}

} // verus!
