use modpack_updater::app::DependencyStatus;
use modpack_updater::dependency_check::{
    check_dependencies_background, install_dependencies_background, Invocation, Managers, Platform,
};

fn words(plan: &[Invocation]) -> Vec<Vec<String>> {
    plan.iter().map(|c| c.words.clone()).collect()
}

fn none() -> Managers {
    Managers { winget: false, choco: false, brew: false, apt_get: false }
}

fn all() -> Managers {
    Managers { winget: true, choco: true, brew: true, apt_get: true }
}

#[test]
fn missing_git_is_reported_whatever_else_is_there() {
    assert_eq!(check_dependencies_background(false, false), DependencyStatus::GitMissing);
    assert_eq!(check_dependencies_background(false, true), DependencyStatus::GitMissing);
}

#[test]
fn missing_lfs_is_reported_when_git_is_there() {
    assert_eq!(check_dependencies_background(true, false), DependencyStatus::GitLfsMissing);
}

#[test]
fn nothing_missing_is_all_ok() {
    assert_eq!(check_dependencies_background(true, true), DependencyStatus::AllOk);
}

#[test]
fn linux_installs_git_with_apt() {
    let plan = install_dependencies_background(Platform::Linux, false, all()).unwrap();
    assert_eq!(
        words(&plan),
        vec![
            vec!["sudo", "apt-get", "update"],
            vec!["sudo", "apt-get", "install", "-y", "git"],
            vec!["git", "lfs", "install"],
        ]
    );
}

#[test]
fn windows_prefers_winget() {
    let plan = install_dependencies_background(Platform::Windows, false, all()).unwrap();
    assert_eq!(
        words(&plan),
        vec![
            vec!["winget", "install", "--id", "Git.Git", "-e", "--source", "winget"],
            vec!["git", "lfs", "install"],
        ]
    );
}

#[test]
fn windows_falls_back_to_choco() {
    let managers = Managers { winget: false, ..all() };
    let plan = install_dependencies_background(Platform::Windows, false, managers).unwrap();
    assert_eq!(
        words(&plan),
        vec![vec!["choco", "install", "git", "-y"], vec!["git", "lfs", "install"]]
    );
}

#[test]
fn macos_installs_git_with_brew() {
    let plan = install_dependencies_background(Platform::MacOs, false, all()).unwrap();
    assert_eq!(words(&plan), vec![vec!["brew", "install", "git"], vec!["git", "lfs", "install"]]);
}

#[test]
fn installed_git_is_left_alone_and_lfs_registers() {
    for platform in [Platform::Windows, Platform::MacOs, Platform::Linux] {
        for managers in [none(), all()] {
            let plan = install_dependencies_background(platform, true, managers).unwrap();
            assert_eq!(words(&plan), vec![vec!["git", "lfs", "install"]]);
        }
    }
}

#[test]
fn without_a_package_manager_nothing_is_installed() {
    assert_eq!(
        install_dependencies_background(Platform::Windows, false, none()),
        Err("No package manager (winget, choco) found. Please install Git manually from https://git-scm.com/downloads".to_string())
    );
    assert_eq!(
        install_dependencies_background(Platform::MacOs, false, none()),
        Err("Homebrew not found. Please install Git manually.".to_string())
    );
    assert_eq!(
        install_dependencies_background(Platform::Linux, false, none()),
        Err("No supported package manager (apt-get) found. Please install Git manually."
            .to_string())
    );
}

#[test]
fn managers_of_other_platforms_do_not_count() {
    let managers = Managers { winget: true, choco: true, brew: true, apt_get: false };
    assert!(install_dependencies_background(Platform::Linux, false, managers).is_err());
    let managers = Managers { winget: true, choco: true, brew: false, apt_get: true };
    assert!(install_dependencies_background(Platform::MacOs, false, managers).is_err());
}
