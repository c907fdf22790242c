//! Privileged removal: the commands that remove a package with elevated
//! rights, and their description for the confirmation dialog.

use vstd::prelude::*;

use crate::models::{BackendError, BackendResult, InstallMethod};
use crate::text::{copy_string, views};
use crate::util::validation::{package_id_valid, rejected_with, validate_package_id};

verus! {

/// A program with its arguments, run without a shell.
#[derive(Debug)]
pub struct Command {
    pub program: String,
    pub args: Vec<String>,
}

pub open spec fn command_view(c: Command) -> (Seq<char>, Seq<Seq<char>>) {
    (c.program@, views(c.args@))
}

pub open spec fn commands_view(cs: Seq<Command>) -> Seq<(Seq<char>, Seq<Seq<char>>)> {
    cs.map_values(|c: Command| command_view(c))
}

/// The commands that remove a package, tried in order until one succeeds:
/// APT, DNF and Snap go through `pkexec`; Flatpak first tries a user
/// removal, then a system one through `pkexec`.
pub open spec fn removal_commands(method: InstallMethod, id: Seq<char>) -> Seq<(Seq<char>, Seq<Seq<char>>)> {
    match method {
        InstallMethod::Apt => seq![("pkexec"@, seq!["apt-get"@, "remove"@, "--purge"@, "-y"@, id])],
        InstallMethod::Dnf => seq![("pkexec"@, seq!["dnf"@, "remove"@, "-y"@, id])],
        InstallMethod::Snap => seq![("pkexec"@, seq!["snap"@, "remove"@, id])],
        InstallMethod::Flatpak => seq![
            ("flatpak"@, seq!["uninstall"@, "-y"@, "--user"@, id]),
            ("pkexec"@, seq!["flatpak"@, "uninstall"@, "-y"@, "--system"@, id]),
        ],
        _ => Seq::empty(),
    }
}

pub open spec fn removes_locally(method: InstallMethod) -> bool {
    method == InstallMethod::AppImage || method == InstallMethod::Manual
}

fn arg(v: &mut Vec<String>, s: &str)
    ensures
        views(final(v)@) == views(old(v)@).push(s@),
{
    let x = copy_string(s);
    v.push(x);
    assert(views(v@) =~= views(old(v)@).push(s@));
}

fn command(program: &str, args: Vec<String>) -> (r: Command)
    ensures
        r.program@ == program@,
        r.args@ == args@,
{
    Command { program: copy_string(program), args }
}

/// The commands that remove a validated package with elevated rights, in
/// the order to try them.
///
/// AppImage and manual applications are removed by their own backend and
/// system components cannot be removed: both are `Unsupported`.
pub fn uninstall_commands(method: InstallMethod, package_id: &str) -> (r: BackendResult<Vec<Command>>)
    ensures
        r is Ok <==> package_id_valid(method, package_id@) && !removes_locally(method) && method
            != InstallMethod::System,
        r matches Ok(cs) ==> commands_view(cs@) == removal_commands(method, package_id@),
        !package_id_valid(method, package_id@) ==> (r matches Err(e) && rejected_with(
            method,
            package_id@,
            e,
        )),
        package_id_valid(method, package_id@) && removes_locally(method) ==> (r matches Err(
            BackendError::Unsupported(s),
        ) && s@ == "Use the specific backend to remove local files"@),
        package_id_valid(method, package_id@) && method == InstallMethod::System ==> (r matches Err(
            BackendError::Unsupported(s),
        ) && s@ == "System components cannot be removed by FindApps"@),
{
    match validate_package_id(method, package_id) {
        Err(e) => {
            return Err(e);
        },
        Ok(()) => {},
    }
    let id = package_id;
    let mut cs: Vec<Command> = Vec::new();
    match method {
        InstallMethod::Apt => {
            let mut a: Vec<String> = Vec::new();
            arg(&mut a, "apt-get");
            arg(&mut a, "remove");
            arg(&mut a, "--purge");
            arg(&mut a, "-y");
            arg(&mut a, id);
            assert(views(a@) =~= seq!["apt-get"@, "remove"@, "--purge"@, "-y"@, id@]);
            cs.push(command("pkexec", a));
            assert(commands_view(cs@) =~= removal_commands(method, package_id@));
        },
        InstallMethod::Dnf => {
            let mut a: Vec<String> = Vec::new();
            arg(&mut a, "dnf");
            arg(&mut a, "remove");
            arg(&mut a, "-y");
            arg(&mut a, id);
            assert(views(a@) =~= seq!["dnf"@, "remove"@, "-y"@, id@]);
            cs.push(command("pkexec", a));
            assert(commands_view(cs@) =~= removal_commands(method, package_id@));
        },
        InstallMethod::Snap => {
            let mut a: Vec<String> = Vec::new();
            arg(&mut a, "snap");
            arg(&mut a, "remove");
            arg(&mut a, id);
            assert(views(a@) =~= seq!["snap"@, "remove"@, id@]);
            cs.push(command("pkexec", a));
            assert(commands_view(cs@) =~= removal_commands(method, package_id@));
        },
        InstallMethod::Flatpak => {
            let mut a: Vec<String> = Vec::new();
            arg(&mut a, "uninstall");
            arg(&mut a, "-y");
            arg(&mut a, "--user");
            arg(&mut a, id);
            assert(views(a@) =~= seq!["uninstall"@, "-y"@, "--user"@, id@]);
            cs.push(command("flatpak", a));
            let mut b: Vec<String> = Vec::new();
            arg(&mut b, "flatpak");
            arg(&mut b, "uninstall");
            arg(&mut b, "-y");
            arg(&mut b, "--system");
            arg(&mut b, id);
            assert(views(b@) =~= seq!["flatpak"@, "uninstall"@, "-y"@, "--system"@, id@]);
            cs.push(command("pkexec", b));
            assert(commands_view(cs@) =~= removal_commands(method, package_id@));
        },
        InstallMethod::AppImage | InstallMethod::Manual => {
            return Err(
                BackendError::Unsupported(
                    copy_string("Use the specific backend to remove local files"),
                ),
            );
        },
        InstallMethod::System => {
            return Err(
                BackendError::Unsupported(
                    copy_string("System components cannot be removed by FindApps"),
                ),
            );
        },
    }
    Ok(cs)
}

/// What comes after one removal command ran.
#[derive(Debug)]
pub enum RemovalStep {
    /// The command succeeded: the package is removed.
    Done,
    /// The command failed and another one is left to try.
    TryNext,
    /// The last command failed, with this error.
    Failed(BackendError),
}

/// The decision after command `index` of `count` ran with `outcome`: stop
/// at the first success, try the next command after a failure, and give the
/// error of the last command when every command failed.
pub fn after_removal_command(index: usize, count: usize, outcome: BackendResult<()>) -> (r: RemovalStep)
    requires
        index < count,
    ensures
        outcome is Ok ==> r is Done,
        outcome is Err && index + 1 < count ==> r is TryNext,
        outcome matches Err(e) ==> (index + 1 == count ==> r == RemovalStep::Failed(e)),
{
    match outcome {
        Ok(()) => RemovalStep::Done,
        Err(e) => {
            if index + 1 < count {
                RemovalStep::TryNext
            } else {
                RemovalStep::Failed(e)
            }
        },
    }
}

/// The text shown before a removal: what will run and for which app.
pub open spec fn uninstall_description(method: InstallMethod, id: Seq<char>, name: Seq<char>) -> Seq<char> {
    match method {
        InstallMethod::Apt => "APT (admin authorization):\napt-get remove --purge -y "@ + id
            + "\n\nApp: "@ + name,
        InstallMethod::Dnf => "DNF (admin authorization):\ndnf remove -y "@ + id + "\n\nApp: "@
            + name,
        InstallMethod::Snap => "Snap (admin authorization):\nsnap remove "@ + id + "\n\nApp: "@
            + name,
        InstallMethod::Flatpak => "Flatpak:\nflatpak uninstall -y "@ + id + "\n\nApp: "@ + name,
        InstallMethod::AppImage => "The AppImage file will be removed:\n"@ + id + "\n\nApp: "@
            + name,
        InstallMethod::Manual => "User-local app files will be removed if possible.\n\nApp: "@
            + name,
        InstallMethod::System => "System components cannot be uninstalled by FindApps."@,
    }
}

fn concat3(a: &str, b: &str, c: &str, d: &str) -> (r: String)
    ensures
        r@ == a@ + b@ + c@ + d@,
{
    let mut s = copy_string(a);
    s.append(b);
    s.append(c);
    s.append(d);
    s
}

/// Human-readable description of a removal, shown in the confirmation.
pub fn describe_uninstall(method: InstallMethod, package_id: &str, name: &str) -> (r: String)
    ensures
        r@ == uninstall_description(method, package_id@, name@),
{
    match method {
        InstallMethod::Apt => concat3(
            "APT (admin authorization):\napt-get remove --purge -y ",
            package_id,
            "\n\nApp: ",
            name,
        ),
        InstallMethod::Dnf => concat3(
            "DNF (admin authorization):\ndnf remove -y ",
            package_id,
            "\n\nApp: ",
            name,
        ),
        InstallMethod::Snap => concat3(
            "Snap (admin authorization):\nsnap remove ",
            package_id,
            "\n\nApp: ",
            name,
        ),
        InstallMethod::Flatpak => concat3(
            "Flatpak:\nflatpak uninstall -y ",
            package_id,
            "\n\nApp: ",
            name,
        ),
        InstallMethod::AppImage => concat3(
            "The AppImage file will be removed:\n",
            package_id,
            "\n\nApp: ",
            name,
        ),
        InstallMethod::Manual => {
            let mut s = copy_string("User-local app files will be removed if possible.\n\nApp: ");
            s.append(name);
            s
        },
        InstallMethod::System => copy_string("System components cannot be uninstalled by FindApps."),
    }
}

/// Removal never goes through a shell: every command runs `pkexec` or
/// `flatpak` directly, and the package id is passed whole, as its last
/// argument. Every package manager method has at least one command.
pub proof fn lemma_removal_commands_safe(method: InstallMethod, id: Seq<char>)
    ensures
        forall|k: int|
            0 <= k < removal_commands(method, id).len() ==> {
                let c = #[trigger] removal_commands(method, id)[k];
                &&& (c.0 == "pkexec"@ || c.0 == "flatpak"@)
                &&& c.1.len() > 0
                &&& c.1.last() == id
            },
        !removes_locally(method) && method != InstallMethod::System ==> removal_commands(
            method,
            id,
        ).len() > 0,
{
}


/// Every command removes the package and none installs one: run through
/// `pkexec`, the package manager's verb (the argument after its name) is
/// `remove` or `uninstall`; run directly, `flatpak`'s verb (its first
/// argument) is `uninstall`; and no argument before the package id is
/// `install`. The DNF command is `pkexec dnf remove -y <id>`, the APT one
/// `pkexec apt-get remove --purge -y <id>`, the Snap one
/// `pkexec snap remove <id>`; Flatpak tries `flatpak uninstall -y --user <id>`
/// then `pkexec flatpak uninstall -y --system <id>`; AppImage, manual and
/// system entries have no command.
pub proof fn lemma_removal_commands_remove(method: InstallMethod, id: Seq<char>)
    ensures
        forall|k: int|
            0 <= k < removal_commands(method, id).len() ==> {
                let c = #[trigger] removal_commands(method, id)[k];
                &&& (c.0 == "pkexec"@ && c.1.len() >= 2 && (c.1[1] == "remove"@ || c.1[1]
                    == "uninstall"@)) || (c.0 == "flatpak"@ && c.1.len() >= 1 && c.1[0]
                    == "uninstall"@)
                &&& forall|x: int| 0 <= x < c.1.len() - 1 ==> c.1[x] != "install"@
            },
        method == InstallMethod::Dnf ==> removal_commands(method, id) == seq![
            ("pkexec"@, seq!["dnf"@, "remove"@, "-y"@, id]),
        ],
        method == InstallMethod::Apt ==> removal_commands(method, id) == seq![
            ("pkexec"@, seq!["apt-get"@, "remove"@, "--purge"@, "-y"@, id]),
        ],
        method == InstallMethod::Snap ==> removal_commands(method, id) == seq![
            ("pkexec"@, seq!["snap"@, "remove"@, id]),
        ],
        method == InstallMethod::Flatpak ==> removal_commands(method, id) == seq![
            ("flatpak"@, seq!["uninstall"@, "-y"@, "--user"@, id]),
            ("pkexec"@, seq!["flatpak"@, "uninstall"@, "-y"@, "--system"@, id]),
        ],
        removes_locally(method) || method == InstallMethod::System ==> removal_commands(
            method,
            id,
        ).len() == 0,
{
    reveal_strlit("install");
    reveal_strlit("remove");
    reveal_strlit("uninstall");
    reveal_strlit("dnf");
    reveal_strlit("apt-get");
    reveal_strlit("snap");
    reveal_strlit("flatpak");
    reveal_strlit("pkexec");
    reveal_strlit("-y");
    reveal_strlit("--purge");
    reveal_strlit("--user");
    reveal_strlit("--system");
    let cs = removal_commands(method, id);
    assert forall|k: int| 0 <= k < cs.len() implies {
        let c = #[trigger] cs[k];
        &&& (c.0 == "pkexec"@ && c.1.len() >= 2 && (c.1[1] == "remove"@ || c.1[1] == "uninstall"@))
            || (c.0 == "flatpak"@ && c.1.len() >= 1 && c.1[0] == "uninstall"@)
        &&& forall|x: int| 0 <= x < c.1.len() - 1 ==> c.1[x] != "install"@
    } by {
        let c = cs[k];
        assert forall|x: int| 0 <= x < c.1.len() - 1 implies c.1[x] != "install"@ by {
            let u = c.1[x];
            match method {
                InstallMethod::Apt => {
                    assert(x == 0 || x == 1 || x == 2 || x == 3);
                },
                InstallMethod::Dnf => {
                    assert(x == 0 || x == 1 || x == 2);
                },
                InstallMethod::Snap => {
                    assert(x == 0 || x == 1);
                },
                InstallMethod::Flatpak => {
                    assert(k == 0 || k == 1);
                    assert(x == 0 || x == 1 || x == 2 || x == 3);
                },
                _ => {},
            }
            if u == "install"@ {
                assert(u.len() == 7 && u[0] == 'i' && u[1] == 'n');
            }
        }
    }
}

} // verus!
