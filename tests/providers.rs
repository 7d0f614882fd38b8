use comtrya::actions::package::{
    default_provider_for_os, install_plan_given, PackageProvider, PackageProviders, PackageRepository, PackageVariant,
    Snapcraft, Zypper,
};
use comtrya::actions::Action;
use comtrya::manifest::Manifest;
use comtrya::atoms::Atom;
use comtrya::contexts::Contexts;

fn empty_variant(provider: PackageProviders) -> PackageVariant {
    PackageVariant {
        name: Some(String::from("")),
        list: vec![],
        extra_args: vec![],
        provider,
        file: false,
    }
}

#[test]
fn snapcraft_test_install() {
    let snapcraft = Snapcraft {};
    let contexts = Contexts::empty();
    let steps = snapcraft.install(&empty_variant(PackageProviders::Snapcraft), &contexts);

    assert_eq!(steps.ok().unwrap().len(), 1);
}

#[test]
fn zypper_test_install() {
    let zypper = Zypper {};
    let contexts = Contexts::empty();
    let steps = zypper.install(&empty_variant(PackageProviders::Zypper), &contexts);

    assert_eq!(steps.ok().unwrap().len(), 1);
}

#[test]
fn zypper_batches_extra_args_and_packages() {
    let zypper = Zypper {};
    let variant = PackageVariant {
        name: None,
        list: vec![String::from("git"), String::from("vim")],
        extra_args: vec![String::from("--no-recommends")],
        provider: PackageProviders::Zypper,
        file: false,
    };
    let steps = zypper.install_steps(&variant, &Contexts::empty());
    match &steps[0].atom {
        Atom::Exec(e) => {
            assert_eq!("zypper", e.command);
            assert_eq!(
                vec!["install", "-y", "--no-recommends", "git", "vim"],
                e.arguments
            );
            assert!(e.privileged);
            assert_eq!("sudo", e.privilege_provider);
        }
        _ => panic!("expected an exec atom"),
    }
}

#[test]
fn default_providers_follow_the_os_family() {
    assert_eq!(Some(PackageProviders::Yay), default_provider_for_os("Arch Linux").ok());
    assert_eq!(Some(PackageProviders::Aptitude), default_provider_for_os("Ubuntu").ok());
    assert_eq!(Some(PackageProviders::Dnf), default_provider_for_os("Fedora").ok());
    assert_eq!(Some(PackageProviders::Dnf), default_provider_for_os("Oracle Linux").ok());
    assert_eq!(Some(PackageProviders::Dnf), default_provider_for_os("CentOS").ok());
    assert_eq!(Some(PackageProviders::Zypper), default_provider_for_os("openSUSE").ok());
    assert_eq!(Some(PackageProviders::BsdPkg), default_provider_for_os("FreeBSD").ok());
    assert_eq!(Some(PackageProviders::Pkgin), default_provider_for_os("NetBSD").ok());
    assert_eq!(Some(PackageProviders::Homebrew), default_provider_for_os("Mac OS").ok());
    assert_eq!(Some(PackageProviders::Winget), default_provider_for_os("Windows").ok());
    let err = default_provider_for_os("Plan 9").err().unwrap();
    assert_eq!("Plan 9", err.os);
}

#[test]
fn repositories_go_to_apt_and_homebrew_only() {
    check_repository(PackageProviders::Aptitude, Some(("add-apt-repository", vec!["-y", "ppa:neovim/stable"])));
    check_repository(PackageProviders::Homebrew, Some(("brew", vec!["tap", "ppa:neovim/stable"])));
    check_repository(PackageProviders::Zypper, None);
}

fn check_repository(provider: PackageProviders, expected: Option<(&str, Vec<&str>)>) {
    let repo = PackageRepository {
        name: String::from("ppa:neovim/stable"),
        provider,
    };
    let steps = repo
        .plan(&Manifest::named(String::from("m")), &Contexts::empty())
        .ok()
        .unwrap();
    match expected {
        None => assert!(steps.is_empty()),
        Some((command, args)) => {
            assert_eq!(1, steps.len());
            match &steps[0].atom {
                Atom::Exec(e) => {
                    assert_eq!(command, e.command);
                    assert_eq!(args, e.arguments);
                }
                _ => panic!("expected an exec atom"),
            }
        }
    }
}

#[test]
fn install_bootstraps_only_when_the_binary_is_missing() {
    let variant = PackageVariant {
        name: Some(String::from("hello")),
        list: vec![],
        extra_args: vec![],
        provider: PackageProviders::Snapcraft,
        file: false,
    };
    let present = install_plan_given(&variant, &Contexts::empty(), true).ok().unwrap();
    assert_eq!(1, present.len());
    let missing = install_plan_given(&variant, &Contexts::empty(), false).ok().unwrap();
    assert_eq!(2, missing.len());
    match (&missing[0].atom, &missing[1].atom) {
        (Atom::Exec(boot), Atom::Exec(install)) => {
            assert_eq!("apt", boot.command);
            assert_eq!(vec!["install", "--yes", "snapd"], boot.arguments);
            assert_eq!("snap", install.command);
            assert_eq!(vec!["install", "--yes", "hello"], install.arguments);
        }
        _ => panic!("expected exec atoms"),
    }
    let zypper = PackageVariant {
        name: Some(String::from("git")),
        list: vec![],
        extra_args: vec![],
        provider: PackageProviders::Zypper,
        file: false,
    };
    assert_eq!(1, install_plan_given(&zypper, &Contexts::empty(), false).ok().unwrap().len());
}

#[test]
fn providers_name_themselves() {
    assert_eq!("Zypper", PackageProviders::Zypper.get_provider().name());
    assert_eq!("Snapcraft", PackageProviders::Snapcraft.get_provider().name());
    assert_eq!("dnf", PackageProviders::Dnf.get_provider().name());
}
