use comtrya::actions::command::RunCommand;
use comtrya::actions::package::{PackageProviders, PackageVariant};
use comtrya::actions::{Action, ActionKind, Actions, ConditionalVariantAction};
use comtrya::atoms::{new_run_command, Atom};
use comtrya::actions::user::{
    Group, GroupProviders, LinuxGroupProvider, LinuxUserProvider, User, UserAddGroup, UserProviders,
};
use comtrya::config::{manifest_path, ApplyError, Config};
use comtrya::contexts::Contexts;
use comtrya::graph::should_ask_for_password;
use comtrya::manifest::Manifest;
use comtrya::privilege::Privilege;

#[test]
fn package_install_ends_with_one_batched_install() {
    let variant = PackageVariant {
        name: None,
        list: vec![String::from("git"), String::from("curl")],
        extra_args: vec![String::from("--quiet")],
        provider: PackageProviders::Dnf,
        file: false,
    };
    let steps = variant
        .plan(&Manifest::named(String::from("m")), &Contexts::empty())
        .ok()
        .unwrap();
    assert_eq!(1, steps.len());
    match &steps[steps.len() - 1].atom {
        Atom::Exec(e) => {
            assert_eq!("dnf", e.command);
            assert_eq!(vec!["install", "-y", "--quiet", "git", "curl"], e.arguments);
            assert!(e.privileged);
        }
        _ => panic!("expected an exec atom"),
    }
    assert_eq!("Installing packages with dnf", variant.summarize());
}

#[test]
fn snap_bootstraps_through_apt_when_missing() {
    let variant = PackageVariant {
        name: Some(String::from("hello")),
        list: vec![],
        extra_args: vec![],
        provider: PackageProviders::Snapcraft,
        file: false,
    };
    let steps = variant
        .plan(&Manifest::named(String::from("m")), &Contexts::empty())
        .ok()
        .unwrap();
    assert!(steps.len() == 1 || steps.len() == 2);
    if steps.len() == 2 {
        match &steps[0].atom {
            Atom::Exec(e) => {
                assert_eq!("apt", e.command);
                assert_eq!(vec!["install", "--yes", "snapd"], e.arguments);
            }
            _ => panic!("expected an exec atom"),
        }
    }
    match &steps[steps.len() - 1].atom {
        Atom::Exec(e) => {
            assert_eq!("snap", e.command);
            assert_eq!(vec!["install", "--yes", "hello"], e.arguments);
        }
        _ => panic!("expected an exec atom"),
    }
}

#[test]
fn manifest_names_must_not_be_paths() {
    let mut config = Config::default();
    assert_eq!(
        Some(ApplyError::NoManifestPaths),
        manifest_path(&config, &vec![String::from("a")]).err()
    );
    config.manifest_paths = vec![String::from("/etc/manifests"), String::from("/other")];
    assert_eq!(
        Some(ApplyError::PathInManifestList),
        manifest_path(&config, &vec![String::from("a/b")]).err()
    );
    assert_eq!(
        Some(String::from("/etc/manifests")),
        manifest_path(&config, &vec![String::from("a.b")]).ok()
    );
}

#[test]
fn exec_keeps_what_the_process_printed() {
    let mut e = new_run_command(String::from("echo"));
    e.record_status(0, String::from("hello\n"), String::new());
    assert_eq!("hello\n", e.output_string());
    assert_eq!("", e.error_message());
    assert_eq!(0, e.status.code);
}

#[test]
fn privilege_helpers() {
    assert_eq!("sudo", Privilege::default().name());
    assert_eq!(Some(String::from("--validate")), Privilege::Sudo.validate_flag());
    assert_eq!(None, Privilege::Doas.validate_flag());
    assert_eq!(Some(Privilege::Run0), Privilege::from_name("run0"));
    assert_eq!(None, Privilege::from_name("su"));
}

#[test]
fn privileged_commands_and_packages_ask_for_a_password() {
    let plain = Actions::CommandRun(ConditionalVariantAction {
        action: RunCommand {
            command: String::from("ls"),
            args: vec![],
            privileged: false,
            dir: None,
            env: vec![],
        },
        condition: None,
        variants: vec![],
    });
    assert_eq!("command.run", plain.name());
    let mut m = Manifest::named(String::from("m"));
    m.actions = vec![plain];
    assert!(!should_ask_for_password(&vec![m]));

    let elevated = Actions::CommandRun(ConditionalVariantAction {
        action: RunCommand {
            command: String::from("ls"),
            args: vec![],
            privileged: true,
            dir: None,
            env: vec![],
        },
        condition: None,
        variants: vec![],
    });
    let mut m = Manifest::named(String::from("m"));
    m.actions = vec![elevated];
    assert!(should_ask_for_password(&vec![m]));
}

#[test]
fn action_tags_and_aliases() {
    assert_eq!(Some(ActionKind::CommandRun), ActionKind::from_tag("cmd.run"));
    assert_eq!(Some(ActionKind::CommandRun), ActionKind::from_tag("command.run"));
    assert_eq!(Some(ActionKind::DirectoryCopy), ActionKind::from_tag("dir.copy"));
    assert_eq!(Some(ActionKind::BinaryGitHub), ActionKind::from_tag("bin.gh"));
    assert_eq!(Some(ActionKind::BinaryGitHub), ActionKind::from_tag("binary.gh"));
    assert_eq!(Some(ActionKind::PackageInstall), ActionKind::from_tag("package.installed"));
    assert_eq!(Some(ActionKind::PackageRepository), ActionKind::from_tag("package.repo"));
    assert_eq!(None, ActionKind::from_tag("package.remove"));
    assert_eq!("binary.github", ActionKind::BinaryGitHub.tag());
    assert_eq!("user.group", ActionKind::UserAddGroup.tag());
}

#[test]
fn linux_user_provider_builds_useradd_and_usermod() {
    let user = User {
        username: String::from("alice"),
        fullname: String::from("Alice A"),
        home_dir: String::new(),
        shell: String::from("/bin/zsh"),
        group: vec![String::from("wheel"), String::from("docker")],
        provider: UserProviders::Linux,
    };
    let steps = LinuxUserProvider {}
        .add_user(&user, &Contexts::empty())
        .ok()
        .unwrap();
    assert_eq!(2, steps.len());
    match (&steps[0].atom, &steps[1].atom) {
        (Atom::Exec(add), Atom::Exec(groups)) => {
            assert_eq!("useradd", add.command);
            assert_eq!(vec!["-c", "Alice A", "-s", "/bin/zsh", "alice"], add.arguments);
            assert!(add.privileged);
            assert_eq!("usermod", groups.command);
            assert_eq!(vec!["-a", "-G", "wheel,docker", "alice"], groups.arguments);
        }
        _ => panic!("expected exec atoms"),
    }
    let nobody = User {
        username: String::new(),
        fullname: String::new(),
        home_dir: String::new(),
        shell: String::new(),
        group: vec![],
        provider: UserProviders::Linux,
    };
    let planned = nobody
        .plan(&Manifest::named(String::from("m")), &Contexts::empty())
        .ok()
        .unwrap();
    assert!(planned.is_empty());
}

#[test]
fn linux_group_provider_builds_groupadd() {
    let group = Group {
        group_name: String::from("builders"),
        provider: GroupProviders::Linux,
    };
    let steps = LinuxGroupProvider {}.add_group(&group, &Contexts::empty());
    match &steps[0].atom {
        Atom::Exec(e) => {
            assert_eq!("groupadd", e.command);
            assert_eq!(vec!["builders"], e.arguments);
            assert!(e.privileged);
        }
        _ => panic!("expected an exec atom"),
    }
    let add = UserAddGroup {
        username: String::from("bob"),
        group: vec![],
        provider: UserProviders::Linux,
    };
    let planned = add
        .plan(&Manifest::named(String::from("m")), &Contexts::empty())
        .ok()
        .unwrap();
    assert!(planned.is_empty());
}

#[test]
fn existing_users_and_groups_need_nothing() {
    let user = User {
        username: String::from("alice"),
        fullname: String::new(),
        home_dir: String::new(),
        shell: String::new(),
        group: vec![],
        provider: UserProviders::Linux,
    };
    assert!(user.plan_given(true, &Contexts::empty()).ok().unwrap().is_empty());
    let steps = user.plan_given(false, &Contexts::empty()).ok().unwrap();
    assert_eq!(1, steps.len());
    match &steps[0].atom {
        Atom::Exec(e) => {
            assert_eq!("useradd", e.command);
            assert_eq!(vec!["alice"], e.arguments);
        }
        _ => panic!("expected an exec atom"),
    }

    let group = Group {
        group_name: String::from("builders"),
        provider: GroupProviders::Linux,
    };
    assert!(group.plan_given(true, &Contexts::empty()).ok().unwrap().is_empty());
    assert_eq!(1, group.plan_given(false, &Contexts::empty()).ok().unwrap().len());
    let none = Group {
        group_name: String::from("builders"),
        provider: GroupProviders::NoneProvider,
    };
    assert!(none.plan_given(false, &Contexts::empty()).ok().unwrap().is_empty());
}
