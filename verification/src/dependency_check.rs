//! The two tools that the application cannot do without, and how to get
//! them.
//!
//! Whether a tool is there is for the caller to find out. What follows from
//! it is decided here: what to report, and which commands to run.

use crate::app::DependencyStatus;
use crate::text::texts_of;
use vstd::prelude::*;

verus! {

/// The tool that everything depends on.
pub const PRIMARY_TOOL: &'static str = "git";

/// The tool that handles large files.
pub const SECONDARY_TOOL: &'static str = "git-lfs";

/// What the check reports: the first tool that is missing, the primary
/// before the secondary, or that nothing is.
pub open spec fn status_of(git_installed: bool, git_lfs_installed: bool) -> DependencyStatus {
    if !git_installed {
        DependencyStatus::GitMissing
    } else if !git_lfs_installed {
        DependencyStatus::GitLfsMissing
    } else {
        DependencyStatus::AllOk
    }
}

/// Says what is missing, given which of the two tools are installed.
///
/// A missing primary tool is reported whether or not the secondary tool is
/// there.
pub fn check_dependencies_background(
    git_installed: bool,
    git_lfs_installed: bool,
) -> (status: DependencyStatus)
    ensures
        status == status_of(git_installed, git_lfs_installed),
        !git_installed ==> status == DependencyStatus::GitMissing,
{
    if !git_installed {
        DependencyStatus::GitMissing
    } else if !git_lfs_installed {
        DependencyStatus::GitLfsMissing
    } else {
        DependencyStatus::AllOk
    }
}

/// The operating systems on which tools can be installed.
#[derive(Debug, Clone, Copy, PartialEq, Eq, Structural)]
pub enum Platform {
    Windows,
    MacOs,
    Linux,
}

/// Which package managers are there.
#[derive(Debug, Clone, Copy, PartialEq, Eq, Structural)]
pub struct Managers {
    pub winget: bool,
    pub choco: bool,
    pub brew: bool,
    pub apt_get: bool,
}

/// A command to run: the program, then its arguments.
#[derive(Debug, Clone, PartialEq, Eq)]
pub struct Invocation {
    pub words: Vec<String>,
}

impl View for Invocation {
    type V = Seq<Seq<char>>;

    open spec fn view(&self) -> Seq<Seq<char>> {
        texts_of(self.words@)
    }
}

/// The commands as sequences of words.
pub open spec fn commands_of(plan: Seq<Invocation>) -> Seq<Seq<Seq<char>>> {
    Seq::new(plan.len(), |i: int| plan[i]@)
}

/// The commands that install the primary tool, or why there are none.
///
/// The package managers of a platform are tried in a fixed order, and the
/// first that is there is used: on Windows `winget`, then `choco`; on macOS
/// `brew`; on Linux `apt-get`, which is first brought up to date.
pub open spec fn git_install_plan(platform: Platform, managers: Managers) -> Result<
    Seq<Seq<Seq<char>>>,
    Seq<char>,
> {
    match platform {
        Platform::Windows => if managers.winget {
            Ok(
                seq![
                    seq![
                        "winget"@,
                        "install"@,
                        "--id"@,
                        "Git.Git"@,
                        "-e"@,
                        "--source"@,
                        "winget"@,
                    ],
                ],
            )
        } else if managers.choco {
            Ok(seq![seq!["choco"@, "install"@, "git"@, "-y"@]])
        } else {
            Err(
                "No package manager (winget, choco) found. Please install Git manually from https://git-scm.com/downloads"@,
            )
        },
        Platform::MacOs => if managers.brew {
            Ok(seq![seq!["brew"@, "install"@, "git"@]])
        } else {
            Err("Homebrew not found. Please install Git manually."@)
        },
        Platform::Linux => if managers.apt_get {
            Ok(
                seq![
                    seq!["sudo"@, "apt-get"@, "update"@],
                    seq!["sudo"@, "apt-get"@, "install"@, "-y"@, "git"@],
                ],
            )
        } else {
            Err("No supported package manager (apt-get) found. Please install Git manually."@)
        },
    }
}

/// The command by which the secondary tool registers itself with the
/// primary one.
pub open spec fn registration() -> Seq<Seq<char>> {
    seq!["git"@, "lfs"@, "install"@]
}

/// Everything that the installation has to run, in order, or why it cannot
/// start: the commands that install the primary tool if it is missing, and
/// then, in any case, the secondary tool's registration.
pub open spec fn install_plan(platform: Platform, git_installed: bool, managers: Managers)
    -> Result<Seq<Seq<Seq<char>>>, Seq<char>> {
    if git_installed {
        Ok(seq![registration()])
    } else {
        match git_install_plan(platform, managers) {
            Ok(commands) => Ok(commands.push(registration())),
            Err(reason) => Err(reason),
        }
    }
}

fn command(words: Vec<String>) -> (invocation: Invocation)
    ensures
        invocation.words == words,
{
    Invocation { words }
}

fn two(a: &str, b: &str) -> (words: Vec<String>)
    ensures
        words@.len() == 2,
        words@[0]@ == a@,
        words@[1]@ == b@,
{
    let mut words: Vec<String> = Vec::new();
    words.push(String::from_str(a));
    words.push(String::from_str(b));
    words
}

fn more(words: Vec<String>, word: &str) -> (out: Vec<String>)
    ensures
        out@.len() == words@.len() + 1,
        forall|i: int| 0 <= i < words@.len() ==> out@[i] == words@[i],
        out@[words@.len() as int]@ == word@,
{
    let mut out = words;
    out.push(String::from_str(word));
    out
}

fn install_git_internal(platform: Platform, managers: Managers) -> (plan: Result<
    Vec<Invocation>,
    String,
>)
    ensures
        match plan {
            Ok(commands) => git_install_plan(platform, managers) == Ok::<
                Seq<Seq<Seq<char>>>,
                Seq<char>,
            >(commands_of(commands@)),
            Err(reason) => git_install_plan(platform, managers) == Err::<
                Seq<Seq<Seq<char>>>,
                Seq<char>,
            >(reason@),
        },
{
    let mut commands: Vec<Invocation> = Vec::new();
    match platform {
        Platform::Windows => {
            if managers.winget {
                let words = more(
                    more(
                        more(more(more(two("winget", "install"), "--id"), "Git.Git"), "-e"),
                        "--source",
                    ),
                    "winget",
                );
                let invocation = command(words);
                assert(invocation@ =~= seq![
                    "winget"@,
                    "install"@,
                    "--id"@,
                    "Git.Git"@,
                    "-e"@,
                    "--source"@,
                    "winget"@,
                ]);
                commands.push(invocation);
                assert(commands_of(commands@) =~= seq![invocation@]);
                Ok(commands)
            } else if managers.choco {
                let invocation = command(more(more(two("choco", "install"), "git"), "-y"));
                assert(invocation@ =~= seq!["choco"@, "install"@, "git"@, "-y"@]);
                commands.push(invocation);
                assert(commands_of(commands@) =~= seq![invocation@]);
                Ok(commands)
            } else {
                Err(
                    String::from_str(
                        "No package manager (winget, choco) found. Please install Git manually from https://git-scm.com/downloads",
                    ),
                )
            }
        },
        Platform::MacOs => {
            if managers.brew {
                let invocation = command(more(two("brew", "install"), "git"));
                assert(invocation@ =~= seq!["brew"@, "install"@, "git"@]);
                commands.push(invocation);
                assert(commands_of(commands@) =~= seq![invocation@]);
                Ok(commands)
            } else {
                Err(String::from_str("Homebrew not found. Please install Git manually."))
            }
        },
        Platform::Linux => {
            if managers.apt_get {
                let update = command(more(two("sudo", "apt-get"), "update"));
                assert(update@ =~= seq!["sudo"@, "apt-get"@, "update"@]);
                let install = command(
                    more(more(more(two("sudo", "apt-get"), "install"), "-y"), "git"),
                );
                assert(install@ =~= seq!["sudo"@, "apt-get"@, "install"@, "-y"@, "git"@]);
                commands.push(update);
                commands.push(install);
                assert(commands_of(commands@) =~= seq![update@, install@]);
                Ok(commands)
            } else {
                Err(
                    String::from_str(
                        "No supported package manager (apt-get) found. Please install Git manually.",
                    ),
                )
            }
        },
    }
}

fn install_git_lfs_internal() -> (invocation: Invocation)
    ensures
        invocation@ == registration(),
{
    let invocation = command(more(two("git", "lfs"), "install"));
    assert(invocation@ =~= seq!["git"@, "lfs"@, "install"@]);
    invocation
}

/// Plans the installation: returns the commands to run, in order, or the
/// reason why nothing can be installed. Each command has to succeed before
/// the next is run; the first that fails ends the installation.
pub fn install_dependencies_background(
    platform: Platform,
    git_installed: bool,
    managers: Managers,
) -> (plan: Result<Vec<Invocation>, String>)
    ensures
        match plan {
            Ok(commands) => install_plan(platform, git_installed, managers) == Ok::<
                Seq<Seq<Seq<char>>>,
                Seq<char>,
            >(commands_of(commands@)),
            Err(reason) => install_plan(platform, git_installed, managers) == Err::<
                Seq<Seq<Seq<char>>>,
                Seq<char>,
            >(reason@),
        },
{
    let mut commands: Vec<Invocation> = Vec::new();
    if !git_installed {
        match install_git_internal(platform, managers) {
            Ok(first) => {
                commands = first;
            },
            Err(reason) => {
                return Err(reason);
            },
        }
    }
    let ghost before = commands_of(commands@);
    let registration = install_git_lfs_internal();
    commands.push(registration);
    assert(commands_of(commands@) =~= before.push(registration@));
    assert(git_installed ==> before =~= Seq::<Seq<Seq<char>>>::empty());
    Ok(commands)
}

} // verus!
