use vstd::prelude::*;

use crate::text::{append_all, join_path, path_join, push_owned};
use crate::workspace::{spec_password, ssh_password, WorkspaceEnv};

verus! {

/// The directory, under the user's home directory, that holds the `ssh`
/// connection-sharing sockets.
pub open spec fn control_dir_spec(home: Seq<char>) -> Seq<char> {
    path_join(path_join(home, ".terax"@), "ssh-control"@)
}

/// The directory, under the home directory `home`, that holds the `ssh`
/// connection-sharing sockets.
pub fn ssh_control_dir(home: &str) -> (res: String)
    ensures
        res@ == control_dir_spec(home@),
{
    let d = join_path(home, ".terax");
    join_path(d.as_str(), "ssh-control")
}

/// Calls `dirs::home_dir` and gives the path it returns as text (lossily,
/// where the path is not valid Unicode). The answer comes from the
/// environment and the user database of the machine, so nothing is stated of
/// it.
#[verifier::external_body]
fn dirs_home_dir() -> (res: Option<String>) {
    match dirs::home_dir() {
        Some(p) => Some(p.to_string_lossy().into_owned()),
        None => None,
    }
}

/// The connection-sharing directory for a home directory that may be
/// unknown.
pub open spec fn control_dir_for_home_spec(home: Option<Seq<char>>) -> Result<Seq<char>, Seq<char>> {
    match home {
        Some(h) => Ok(control_dir_spec(h)),
        None => Err("home directory is unavailable"@),
    }
}

/// The connection-sharing directory under `home`, or an error when the home
/// directory is unknown.
pub fn control_dir_for_home(home: Option<String>) -> (res: Result<String, String>)
    ensures
        match (res, control_dir_for_home_spec(home.deep_view())) {
            (Ok(d), Ok(sd)) => d@ == sd,
            (Err(e), Err(se)) => e@ == se,
            _ => false,
        },
{
    match home {
        Some(h) => Ok(ssh_control_dir(h.as_str())),
        None => Err("home directory is unavailable".to_owned()),
    }
}

/// The connection-sharing directory under the current user's home
/// directory, or an error when the home directory is unknown.
pub fn user_control_dir() -> (res: Result<String, String>)
    ensures
        match res {
            Ok(d) => exists|h: Seq<char>| d@ == control_dir_spec(h),
            Err(e) => e@ == "home directory is unavailable"@,
        },
{
    let home = dirs_home_dir();
    let ghost home_view = home.deep_view();
    let res = control_dir_for_home(home);
    proof {
        if home_view is Some {
            let h = home_view->0;
            if res is Ok {
                assert(res->Ok_0@ == control_dir_spec(h));
            }
        }
    }
    res
}

/// The `ssh` options that share one connection per destination through a
/// socket in `control_dir`, kept open ten minutes after last use.
pub open spec fn multiplex_spec(control_dir: Seq<char>) -> Seq<Seq<char>> {
    seq![
        "-o"@,
        "ControlMaster=auto"@,
        "-o"@,
        "ControlPersist=10m"@,
        "-o"@,
        "ControlPath="@ + path_join(control_dir, "%C"@),
    ]
}

/// The `ssh` options for connection sharing through sockets in
/// `control_dir`.
pub fn ssh_multiplex_options(control_dir: &str) -> (res: Vec<String>)
    ensures
        res.deep_view() == multiplex_spec(control_dir@),
{
    let mut out: Vec<String> = Vec::new();
    push_owned(&mut out, "-o");
    push_owned(&mut out, "ControlMaster=auto");
    push_owned(&mut out, "-o");
    push_owned(&mut out, "ControlPersist=10m");
    push_owned(&mut out, "-o");
    let mut path = "ControlPath=".to_owned();
    let sock = join_path(control_dir, "%C");
    path.append(sock.as_str());
    push_owned(&mut out, path.as_str());
    proof {
        assert(out.deep_view() =~= multiplex_spec(control_dir@));
    }
    out
}

/// The `ssh` options of one workspace: accept new host keys, share
/// connections, and either authenticate by password through the askpass
/// helper (when a password is set) or never prompt.
pub open spec fn auth_args_spec(password: Option<Seq<char>>, multiplex: Seq<Seq<char>>) -> Seq<
    Seq<char>,
> {
    seq!["-o"@, "StrictHostKeyChecking=accept-new"@] + multiplex + match password {
        Some(_) => seq![
            "-o"@,
            "BatchMode=no"@,
            "-o"@,
            "PubkeyAuthentication=no"@,
            "-o"@,
            "PreferredAuthentications=password,keyboard-interactive"@,
            "-o"@,
            "KbdInteractiveAuthentication=yes"@,
            "-o"@,
            "NumberOfPasswordPrompts=1"@,
        ],
        None => seq!["-o"@, "BatchMode=yes"@],
    }
}

/// The environment of `ssh` for one workspace: with a password, the askpass
/// helper at `askpass` is forced and reads the password from
/// `TERAX_SSH_PASSWORD`; without one, nothing.
pub open spec fn auth_envs_spec(password: Option<Seq<char>>, askpass: Seq<char>) -> Seq<
    (Seq<char>, Seq<char>),
> {
    match password {
        Some(p) => seq![
            ("SSH_ASKPASS"@, askpass),
            ("SSH_ASKPASS_REQUIRE"@, "force"@),
            ("DISPLAY"@, ":0"@),
            ("TERAX_SSH_PASSWORD"@, p),
        ],
        None => seq![],
    }
}

/// `ssh` arguments and environment variables.
pub type SshAuthOptions = (Vec<String>, Vec<(String, String)>);

fn push_env(envs: &mut Vec<(String, String)>, key: &str, value: &str)
    ensures
        final(envs).deep_view() == old(envs).deep_view().push((key@, value@)),
{
    envs.push((key.to_owned(), value.to_owned()));
    proof {
        assert(envs.deep_view() =~= old(envs).deep_view().push((key@, value@)));
    }
}

/// The authentication options of `workspace`, given the connection-sharing
/// options and the path of the askpass helper (used only when the workspace
/// has a password).
pub fn ssh_auth_options(workspace: &WorkspaceEnv, multiplex: Vec<String>, askpass: &str) -> (res:
    SshAuthOptions)
    ensures
        res.0.deep_view() == auth_args_spec(spec_password(*workspace), multiplex.deep_view()),
        res.1.deep_view() == auth_envs_spec(spec_password(*workspace), askpass@),
{
    let ghost mux = multiplex.deep_view();
    let mut args: Vec<String> = Vec::new();
    push_owned(&mut args, "-o");
    push_owned(&mut args, "StrictHostKeyChecking=accept-new");
    append_all(&mut args, multiplex);
    let mut envs: Vec<(String, String)> = Vec::new();
    match ssh_password(workspace) {
        Some(password) => {
            push_owned(&mut args, "-o");
            push_owned(&mut args, "BatchMode=no");
            push_owned(&mut args, "-o");
            push_owned(&mut args, "PubkeyAuthentication=no");
            push_owned(&mut args, "-o");
            push_owned(&mut args, "PreferredAuthentications=password,keyboard-interactive");
            push_owned(&mut args, "-o");
            push_owned(&mut args, "KbdInteractiveAuthentication=yes");
            push_owned(&mut args, "-o");
            push_owned(&mut args, "NumberOfPasswordPrompts=1");
            push_env(&mut envs, "SSH_ASKPASS", askpass);
            push_env(&mut envs, "SSH_ASKPASS_REQUIRE", "force");
            push_env(&mut envs, "DISPLAY", ":0");
            push_env(&mut envs, "TERAX_SSH_PASSWORD", password);
        },
        None => {
            push_owned(&mut args, "-o");
            push_owned(&mut args, "BatchMode=yes");
        },
    }
    proof {
        assert(args.deep_view() =~= auth_args_spec(spec_password(*workspace), mux));
        assert(envs.deep_view() =~= auth_envs_spec(spec_password(*workspace), askpass@));
    }
    (args, envs)
}

/// The file name and contents of the askpass helper, which prints the
/// password that `ssh` passes it in `TERAX_SSH_PASSWORD`: a batch file on
/// Windows, a POSIX shell script elsewhere.
pub fn askpass_script(windows: bool) -> (res: (String, String))
    ensures
        windows ==> res.0@ == "terax-ssh-askpass.cmd"@ && res.1@
            == "@echo off\r\nfor %%I in (\"%TERAX_SSH_PASSWORD%\") do @echo %%~I\r\n"@,
        !windows ==> res.0@ == "terax-ssh-askpass.sh"@ && res.1@
            == "#!/bin/sh\nprintf '%s\\n' \"$TERAX_SSH_PASSWORD\"\n"@,
{
    if windows {
        (
            "terax-ssh-askpass.cmd".to_owned(),
            "@echo off\r\nfor %%I in (\"%TERAX_SSH_PASSWORD%\") do @echo %%~I\r\n".to_owned(),
        )
    } else {
        (
            "terax-ssh-askpass.sh".to_owned(),
            "#!/bin/sh\nprintf '%s\\n' \"$TERAX_SSH_PASSWORD\"\n".to_owned(),
        )
    }
}

/// With a password, the options keep host-key and sharing options first,
/// then turn batch mode off, and the environment hands the askpass helper the
/// password; without one, batch mode is on and the environment is empty.
pub proof fn lemma_password_selects_auth_mode(
    password: Option<Seq<char>>,
    multiplex: Seq<Seq<char>>,
    askpass: Seq<char>,
)
    ensures
        ({
            let args = auth_args_spec(password, multiplex);
            let envs = auth_envs_spec(password, askpass);
            let k = 2 + multiplex.len() as int;
            &&& args[0] == "-o"@
            &&& args[1] == "StrictHostKeyChecking=accept-new"@
            &&& args.subrange(2, k) == multiplex
            &&& args[k] == "-o"@
            &&& password matches Some(p) ==> {
                &&& args[k + 1] == "BatchMode=no"@
                &&& envs.contains(("SSH_ASKPASS"@, askpass))
                &&& envs.contains(("TERAX_SSH_PASSWORD"@, p))
            }
            &&& password is None ==> {
                &&& args[k + 1] == "BatchMode=yes"@
                &&& args.len() == k + 2
                &&& envs.len() == 0
            }
        }),
{
    let args = auth_args_spec(password, multiplex);
    let envs = auth_envs_spec(password, askpass);
    let k = 2 + multiplex.len() as int;
    assert(args.subrange(2, k) =~= multiplex);
    if let Some(p) = password {
        assert(envs[0] == ("SSH_ASKPASS"@, askpass));
        assert(envs[3] == ("TERAX_SSH_PASSWORD"@, p));
    }
}

} // verus!
