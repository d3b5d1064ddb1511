use terax_ssh::{
    remote_login_shell_bootstrap, remote_shell_invocation, ssh_auth_options, ssh_control_dir,
    ssh_multiplex_options, WorkspaceEnv,
};

fn askpass_path() -> &'static str {
    "/tmp/terax-ssh-askpass.sh"
}

fn multiplex() -> Vec<String> {
    ssh_multiplex_options(&ssh_control_dir("/home/alice"))
}

#[test]
fn remote_login_shell_bootstrap_falls_back_to_common_shells() {
    let script = remote_login_shell_bootstrap();
    assert!(script.contains("/bin/bash"));
    assert!(script.contains("/usr/bin/bash"));
    assert!(script.contains("/bin/sh"));
    assert!(script.contains("exec \"$shell\" -l"));
}

#[test]
fn remote_shell_invocation_wraps_command_in_single_shell_argument() {
    assert_eq!(remote_shell_invocation("echo hi"), "sh -lc 'echo hi'");
}

#[test]
fn ssh_auth_options_enable_askpass_when_password_present() {
    let workspace = WorkspaceEnv::Ssh {
        id: "ssh-1".into(),
        label: "ssh".into(),
        host: "example.com".into(),
        user: Some("alice".into()),
        port: Some(22),
        root_path: "/srv/app".into(),
        password: Some("secret".into()),
    };
    let (args, envs) = ssh_auth_options(&workspace, multiplex(), askpass_path());
    assert!(args.windows(2).any(|w| w == ["-o", "ControlMaster=auto"]));
    assert!(args.windows(2).any(|w| w == ["-o", "ControlPersist=10m"]));
    assert!(args.windows(2).any(|w| w == ["-o", "BatchMode=no"]));
    assert!(args
        .windows(2)
        .any(|w| w == ["-o", "PubkeyAuthentication=no"]));
    assert!(envs.iter().any(|(k, _)| k == "SSH_ASKPASS"));
    assert!(envs
        .iter()
        .any(|(k, v)| k == "TERAX_SSH_PASSWORD" && v == "secret"));
}

#[test]
fn ssh_auth_options_use_batchmode_when_password_missing() {
    let workspace = WorkspaceEnv::Ssh {
        id: "ssh-1".into(),
        label: "ssh".into(),
        host: "example.com".into(),
        user: Some("alice".into()),
        port: Some(22),
        root_path: "/srv/app".into(),
        password: None,
    };
    let (args, envs) = ssh_auth_options(&workspace, multiplex(), askpass_path());
    assert!(args
        .windows(2)
        .any(|w| w == ["-o", "StrictHostKeyChecking=accept-new"]));
    assert!(args.windows(2).any(|w| w == ["-o", "ControlMaster=auto"]));
    assert!(args.windows(2).any(|w| w == ["-o", "ControlPersist=10m"]));
    assert!(args.windows(2).any(|w| w == ["-o", "BatchMode=yes"]));
    assert!(envs.is_empty());
}
