use comtrya::actions::command::RunCommand;
use comtrya::actions::directory::DirectoryCopy;
use comtrya::actions::git::GitClone;
use comtrya::actions::package::{PackageProviders, PackageVariant};
use comtrya::actions::{Action, Actions, Choice, ConditionalVariantAction, Variant};
use comtrya::atoms::Atom;
use comtrya::contexts::{get_privilege_provider, ContextNamespace, Contexts};
use comtrya::executor::{Command, Event, Executor};
use comtrya::graph::{resolve_dependency_name, DependencyGraph, GraphError};
use comtrya::guard::{evaluate_guard, guard_allows};
use comtrya::manifest::Manifest;

fn linux_contexts() -> Contexts {
    Contexts {
        namespaces: vec![ContextNamespace {
            name: String::from("os"),
            values: vec![(String::from("name"), String::from("linux"))],
        }],
    }
}

fn run_command(command: &str, args: &[&str]) -> RunCommand {
    RunCommand {
        command: String::from(command),
        args: args.iter().map(|a| String::from(*a)).collect(),
        privileged: false,
        dir: None,
        env: vec![],
    }
}

fn command_action(command: &str, args: &[&str]) -> Actions {
    Actions::CommandRun(ConditionalVariantAction {
        action: run_command(command, args),
        condition: None,
        variants: vec![],
    })
}

fn manifest(name: &str, depends: &[&str], actions: Vec<Actions>) -> Manifest {
    let mut m = Manifest::named(String::from(name));
    m.depends = depends.iter().map(|d| String::from(*d)).collect();
    m.actions = actions;
    m
}

fn exec_of(action: &Actions) -> (String, Vec<String>) {
    let steps = action
        .inner_ref()
        .plan(&Manifest::named(String::from("m")), &linux_contexts())
        .ok()
        .unwrap();
    match &steps[0].atom {
        Atom::Exec(e) => (e.command.clone(), e.arguments.clone()),
        _ => panic!("expected an exec atom"),
    }
}

#[test]
fn guards_evaluate_against_contexts() {
    let c = linux_contexts();
    assert_eq!(Some(true), evaluate_guard("os.name == \"linux\"", &c).ok());
    assert_eq!(Some(false), evaluate_guard("os.name == \"macos\"", &c).ok());
    assert_eq!(Some(true), evaluate_guard("!(os.name == \"macos\") && true", &c).ok());
    assert!(evaluate_guard("missing_namespace.key == \"x\"", &c).is_err());
    assert!(!guard_allows("missing_namespace.key == \"x\"", &c));
}

#[test]
fn variant_selection_picks_the_matching_variant() {
    let action = ConditionalVariantAction {
        action: run_command("echo", &["default"]),
        condition: None,
        variants: vec![Variant::new(
            run_command("echo", &["linux"]),
            Some(String::from("os.name == \"linux\"")),
        )],
    };
    assert_eq!(Choice::Variant(0), action.select(&linux_contexts()));
    let (command, args) = exec_of(&Actions::CommandRun(action));
    assert_eq!("echo", command);
    assert_eq!(vec![String::from("linux")], args);
}

#[test]
fn variant_selection_is_the_same_on_every_run() {
    let action = ConditionalVariantAction {
        action: run_command("echo", &["default"]),
        condition: None,
        variants: vec![
            Variant::new(run_command("echo", &["mac"]), Some(String::from("os.name == \"macos\""))),
            Variant::new(run_command("echo", &["linux"]), Some(String::from("os.name == \"linux\""))),
        ],
    };
    let first = action.select(&linux_contexts());
    for _ in 0..3 {
        assert_eq!(first, action.select(&linux_contexts()));
    }
    assert_eq!(Choice::Variant(1), first);
}

#[test]
fn variant_with_missing_key_does_not_match() {
    let action = ConditionalVariantAction {
        action: run_command("echo", &["default"]),
        condition: None,
        variants: vec![Variant::new(
            run_command("echo", &["never"]),
            Some(String::from("missing_namespace.key == \"x\"")),
        )],
    };
    assert_eq!(Choice::Base, action.select(&linux_contexts()));
    let missing_key = ConditionalVariantAction {
        action: run_command("echo", &["default"]),
        condition: None,
        variants: vec![Variant::new(
            run_command("echo", &["never"]),
            Some(String::from("os.missing_key == \"x\"")),
        )],
    };
    assert_eq!(Choice::Base, missing_key.select(&linux_contexts()));
    let (_, args) = exec_of(&Actions::CommandRun(action));
    assert_eq!(vec![String::from("default")], args);
}

#[test]
fn base_condition_decides_when_no_variant_matches() {
    let mut action = ConditionalVariantAction {
        action: run_command("echo", &["default"]),
        condition: Some(String::from("os.name == \"macos\"")),
        variants: vec![],
    };
    assert_eq!(Choice::Skip, action.select(&linux_contexts()));
    let steps = action
        .plan(&Manifest::named(String::from("m")), &linux_contexts())
        .ok()
        .unwrap();
    assert!(steps.is_empty());
    action.condition = Some(String::from("missing_namespace.key"));
    assert_eq!(Choice::GuardFailed, action.select(&linux_contexts()));
    assert!(action
        .plan(&Manifest::named(String::from("m")), &linux_contexts())
        .is_err());
}

#[test]
fn privilege_provider_comes_from_contexts() {
    let mut c = linux_contexts();
    assert_eq!(None, get_privilege_provider(&c));
    c.namespaces.push(ContextNamespace {
        name: String::from("privilege"),
        values: vec![(String::from("privilege"), String::from("doas"))],
    });
    assert_eq!(Some(String::from("doas")), get_privilege_provider(&c));
}

#[test]
fn relative_dependencies_resolve_against_the_prefix() {
    assert_eq!("apps.base", resolve_dependency_name("apps.editor", "./base"));
    assert_eq!("editor.base", resolve_dependency_name("editor", "./base"));
    assert_eq!("a.b.c", resolve_dependency_name("a.b.x", "./c"));
    assert_eq!("tools", resolve_dependency_name("apps.editor", "tools"));
}

#[test]
fn dependency_runs_first() {
    let a = manifest("a", &[], vec![command_action("touch", &["/tmp/a"])]);
    let b = manifest("b", &["a"], vec![command_action("test", &["-f", "/tmp/a"])]);
    let graph = DependencyGraph::new(vec![b, a]).ok().unwrap();
    assert_eq!(vec![1usize, 0], graph.run_order(Some("b")).ok().unwrap());
    assert_eq!(vec![1usize], graph.run_order(Some("a")).ok().unwrap());
    let everything = graph.run_order(None).ok().unwrap();
    assert_eq!(2, everything.len());
    let pos_a = everything.iter().position(|m| *m == 1).unwrap();
    let pos_b = everything.iter().position(|m| *m == 0).unwrap();
    assert!(pos_a < pos_b);
}

#[test]
fn sibling_dependency_and_unresolved_names() {
    let base = manifest("apps.base", &[], vec![]);
    let editor = manifest("apps.editor", &["./base", "nowhere"], vec![]);
    let graph = DependencyGraph::new(vec![editor, base]).ok().unwrap();
    assert_eq!(vec![1usize, 0], graph.run_order(Some("apps.editor")).ok().unwrap());
    assert_eq!(vec![String::from("nowhere")], graph.unresolved);
}

#[test]
fn cycles_and_unknown_manifests_are_errors() {
    let a = manifest("a", &["b"], vec![]);
    let b = manifest("b", &["a"], vec![]);
    assert_eq!(Some(GraphError::CycleDetected), DependencyGraph::new(vec![a, b]).err());
    let graph = DependencyGraph::new(vec![manifest("a", &[], vec![])]).ok().unwrap();
    assert_eq!(Some(GraphError::UnknownManifest), graph.run_order(Some("zzz")).err());
}

fn package_action(name: &str) -> Actions {
    Actions::PackageInstall(ConditionalVariantAction {
        action: PackageVariant {
            name: Some(String::from(name)),
            list: vec![],
            extra_args: vec![],
            provider: PackageProviders::Zypper,
            file: false,
        },
        condition: None,
        variants: vec![],
    })
}

#[test]
fn package_operations_are_chained() {
    let p1 = manifest("p1", &[], vec![package_action("git")]);
    let other = manifest("other", &[], vec![command_action("echo", &["x"])]);
    let p2 = manifest("p2", &[], vec![package_action("vim")]);
    let graph = DependencyGraph::new(vec![p1, other, p2]).ok().unwrap();
    let run = graph.run_order(None).ok().unwrap();
    let pos1 = run.iter().position(|m| *m == 0).unwrap();
    let pos2 = run.iter().position(|m| *m == 2).unwrap();
    assert!(pos2 < pos1);
    assert_eq!(vec![2usize, 0], graph.run_order(Some("p1")).ok().unwrap());
}

/// Drives an executor, answering initializers, executions and finalizers from
/// the given closures; returns the steps executed, as (position in run, step).
fn drive(
    exec: &mut Executor,
    init: &dyn Fn(usize) -> bool,
    run_ok: &dyn Fn(usize) -> bool,
    fin: &dyn Fn(usize) -> bool,
) -> (Vec<(usize, usize)>, bool) {
    let mut executed = vec![];
    let mut event = Event::Proceed;
    for _ in 0..10_000 {
        match exec.next(event) {
            Command::Continue => event = Event::Proceed,
            Command::RunInitializers { step } => event = Event::Initialized(init(step)),
            Command::Execute { step } => {
                executed.push((exec.run[exec.position], step));
                event = Event::Executed(run_ok(exec.run[exec.position]));
            }
            Command::RunFinalizers { step } => event = Event::Finalized(fin(step)),
            Command::Finished { successful } => return (executed, successful),
        }
    }
    panic!("the run did not finish");
}

fn executor_for(manifests: Vec<Manifest>, dry_run: bool, label: Option<&str>) -> Executor {
    let graph = DependencyGraph::new(manifests).ok().unwrap();
    let run = graph.run_order(None).ok().unwrap();
    Executor::new(graph, run, linux_contexts(), dry_run, label.map(String::from))
}

#[test]
fn simple_apply_executes_the_command() {
    let base = manifest("base", &[], vec![command_action("echo", &["hello"])]);
    let mut exec = executor_for(vec![base], false, None);
    let (executed, ok) = drive(&mut exec, &|_| true, &|_| true, &|_| true);
    assert_eq!(vec![(0usize, 0usize)], executed);
    assert!(ok);
    match &exec.steps[0].atom {
        Atom::Exec(e) => {
            assert_eq!("echo", e.command);
            assert_eq!(vec![String::from("hello")], e.arguments);
        }
        _ => panic!("expected an exec atom"),
    }
}

#[test]
fn dry_run_executes_nothing_but_summarizes() {
    let m = manifest("m", &[], vec![command_action("rm", &["-rf", "/tmp/sentinel"])]);
    let mut exec = executor_for(vec![m], true, None);
    let (executed, ok) = drive(&mut exec, &|_| true, &|_| true, &|_| true);
    assert!(executed.is_empty());
    assert!(ok);
    assert!(exec.log.iter().any(|l| l.message == "Running command rm"));
}

#[test]
fn label_selector_skips_other_manifests() {
    let mut m1 = manifest("m1", &[], vec![command_action("echo", &["one"])]);
    m1.labels = vec![String::from("prod")];
    let mut m2 = manifest("m2", &[], vec![command_action("echo", &["two"])]);
    m2.labels = vec![String::from("dev")];
    let mut exec = executor_for(vec![m1, m2], false, Some("prod"));
    let (executed, ok) = drive(&mut exec, &|_| true, &|_| true, &|_| true);
    assert_eq!(vec![(0usize, 0usize)], executed);
    assert!(ok);
}

#[test]
fn where_guard_skips_manifest() {
    let mut m = manifest("m", &[], vec![command_action("echo", &["x"])]);
    m.condition = Some(String::from("os.name == \"macos\""));
    let mut exec = executor_for(vec![m], false, None);
    let (executed, ok) = drive(&mut exec, &|_| true, &|_| true, &|_| true);
    assert!(executed.is_empty());
    assert!(ok);
}

#[test]
fn failure_stops_dependents() {
    let a = manifest("a", &[], vec![command_action("false", &[])]);
    let b = manifest("b", &["a"], vec![command_action("echo", &["b"])]);
    let mut exec = executor_for(vec![a, b], false, None);
    let (executed, ok) = drive(&mut exec, &|_| true, &|m| m != 0, &|_| true);
    assert_eq!(vec![(0usize, 0usize)], executed);
    assert!(!ok);
}

#[test]
fn initializer_veto_skips_the_step() {
    let m = manifest(
        "m",
        &[],
        vec![Actions::DirectoryCopy(ConditionalVariantAction {
            action: DirectoryCopy { from: String::from("src"), to: String::from("/tmp/dst/") },
            condition: None,
            variants: vec![],
        })],
    );
    let mut exec = executor_for(vec![m], false, None);
    let (executed, ok) = drive(&mut exec, &|step| step != 0, &|_| true, &|_| true);
    assert_eq!(vec![(0usize, 1usize)], executed);
    assert!(ok);
}

#[test]
fn finalizer_veto_stops_the_action() {
    let m = manifest(
        "m",
        &[],
        vec![
            Actions::DirectoryCopy(ConditionalVariantAction {
                action: DirectoryCopy { from: String::from("src"), to: String::from("/tmp/dst") },
                condition: None,
                variants: vec![],
            }),
            command_action("echo", &["after"]),
        ],
    );
    let mut exec = executor_for(vec![m], true, None);
    let (executed, _) = drive(&mut exec, &|_| true, &|_| true, &|_| false);
    assert!(executed.is_empty());
    let m = manifest(
        "m",
        &[],
        vec![Actions::DirectoryCopy(ConditionalVariantAction {
            action: DirectoryCopy { from: String::from("src"), to: String::from("/tmp/dst") },
            condition: None,
            variants: vec![],
        })],
    );
    let mut exec = executor_for(vec![m], false, None);
    let (executed, ok) = drive(&mut exec, &|_| true, &|_| true, &|_| false);
    assert_eq!(vec![(0usize, 0usize)], executed);
    assert!(!ok);
}

#[test]
fn directory_copy_resolves_against_the_manifest() {
    let copy = DirectoryCopy { from: String::from("mydir"), to: String::from("/tmp/dircopy/") };
    let mut m = Manifest::named(String::from("m"));
    m.root_dir = Some(String::from("/home/me/manifests"));
    let steps = copy.plan_steps(&m);
    match (&steps[0].atom, &steps[1].atom) {
        (Atom::Exec(mkdir), Atom::Exec(cp)) => {
            assert_eq!("mkdir", mkdir.command);
            assert_eq!(vec!["-p", "/tmp"], mkdir.arguments);
            assert_eq!("cp", cp.command);
            assert_eq!(
                vec!["-r", "/home/me/manifests/mydir/.", "/tmp/dircopy/"],
                cp.arguments
            );
        }
        _ => panic!("expected exec atoms"),
    }
    assert_eq!("Copying mydir to /tmp/dircopy/", copy.summarize());
}

#[test]
fn git_clone_checks_the_url() {
    let ok = GitClone {
        repo_url: String::from("https://github.com/comtrya/comtrya"),
        directory: String::from("/tmp/comtrya"),
    };
    let steps = ok.plan_steps().ok().unwrap();
    match &steps[0].atom {
        Atom::GitClone { repository, directory } => {
            assert_eq!("https://github.com/comtrya/comtrya", repository);
            assert_eq!("/tmp/comtrya", directory);
        }
        _ => panic!("expected a clone atom"),
    }
    let bad = GitClone { repo_url: String::from(""), directory: String::from("/tmp/x") };
    assert!(bad.plan_steps().is_err());
}

#[test]
fn directory_copy_creates_the_parent() {
    let m = Manifest::named(String::from("m"));
    for (to, parent) in [("/srv/www", "/srv"), ("/srv/www/", "/srv"), ("/www", "/"), ("www", ".")] {
        let copy = DirectoryCopy { from: String::from("/src"), to: String::from(to) };
        let steps = copy.plan_steps(&m);
        match &steps[0].atom {
            Atom::Exec(mkdir) => assert_eq!(vec!["-p", parent], mkdir.arguments),
            _ => panic!("expected an exec atom"),
        }
    }
}
