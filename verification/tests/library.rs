use serde_json::Value;
use terax_ssh::{
    askpass_script, build_command, command_timeout_secs, drain_step, envelope_result,
    finish_remote, git_output_from_remote, is_ssh, op_name, op_payload_json,
    parse_failure_message, poll_action, prepare_remote, quote_posix, remote_login_command,
    remote_login_shell_bootstrap_with, remote_shell_command, request_json, ssh_auth_options,
    ssh_control_dir, control_dir_for_home, user_control_dir, ssh_endpoint, ssh_multiplex_options, ssh_password, validate_host,
    validate_root, validate_user, workspace_root, PollAction, RemoteEnvelope, RemoteGitOutput,
    RemoteOp, ShellInitScripts, WorkspaceEnv, run_crew_op,
};

fn ssh_workspace(host: &str, user: Option<&str>, port: Option<u16>, password: Option<&str>) -> WorkspaceEnv {
    WorkspaceEnv::Ssh {
        id: "ssh-1".into(),
        label: "ssh".into(),
        host: host.into(),
        user: user.map(|u| u.to_string()),
        port,
        root_path: "/srv/app".into(),
        password: password.map(|p| p.to_string()),
    }
}

fn strings(items: &[&str]) -> Vec<String> {
    items.iter().map(|s| s.to_string()).collect()
}

/// Reads a word made of single-quoted runs and backslash escapes, as a POSIX
/// shell does.
fn shell_read_word(w: &str) -> Option<String> {
    let mut out = String::new();
    let mut chars = w.chars();
    while let Some(c) = chars.next() {
        match c {
            '\'' => loop {
                match chars.next() {
                    Some('\'') => break,
                    Some(x) => out.push(x),
                    None => return None,
                }
            },
            '\\' => out.push(chars.next()?),
            _ => return None,
        }
    }
    Some(out)
}

fn json_text(pairs: Vec<(&str, Value)>) -> String {
    let mut map = serde_json::Map::new();
    for (k, v) in pairs {
        map.insert(k.to_string(), v);
    }
    serde_json::to_string(&Value::Object(map)).unwrap()
}

#[test]
fn quote_posix_escapes_single_quotes() {
    assert_eq!(quote_posix("a'b"), "'a'\\''b'");
    assert_eq!(quote_posix(""), "''");
    assert_eq!(quote_posix("$HOME x"), "'$HOME x'");
}

#[test]
fn quote_posix_reads_back_as_one_word() {
    for s in ["", "plain", "it's", "''", "a b\tc\n", "\\'\\", "$(rm -rf /)", "é'ü"] {
        assert_eq!(shell_read_word(&quote_posix(s)), Some(s.to_string()));
    }
}

#[test]
fn remote_shell_command_changes_directory_only_when_given() {
    assert_eq!(remote_shell_command(Some("/srv/my app"), "ls"), "cd '/srv/my app' && ls");
    assert_eq!(remote_shell_command(Some(""), "ls"), "ls");
    assert_eq!(remote_shell_command(None, "ls"), "ls");
}

#[test]
fn remote_login_command_runs_bootstrap_in_cwd() {
    let cmd = remote_login_command(Some("/srv"));
    assert!(cmd.starts_with("cd '/srv' && shell=\"${SHELL:-}\""));
    assert!(cmd.ends_with("esac"));
}

#[test]
fn bootstrap_embeds_init_scripts_in_order() {
    let scripts = ShellInitScripts {
        zshenv: "ZSHENV".into(),
        zprofile: "ZPROFILE".into(),
        zshrc: "ZSHRC".into(),
        zlogin: "ZLOGIN".into(),
        bashrc: "BASHRC".into(),
        fish: "FISH".into(),
    };
    let script = remote_login_shell_bootstrap_with(&scripts);
    let order = ["ZSHENV", "ZPROFILE", "ZSHRC", "ZLOGIN", "BASHRC", "FISH"];
    let positions: Vec<usize> = order.iter().map(|m| script.find(m).unwrap()).collect();
    assert!(positions.windows(2).all(|w| w[0] < w[1]));
    assert!(script.contains("<<'__TERAX_ZSHENV__'\nZSHENV\n__TERAX_ZSHENV__\n"));
    assert!(script.contains("exec \"$shell\" --rcfile \"$tmpdir/.terax-bashrc\" -i"));
    assert!(script.contains("exec \"$shell\" -i -C \"source $tmpdir/.terax-fish.fish\""));
}

#[test]
fn validate_host_cases() {
    assert_eq!(validate_host(""), Err("SSH host is required".to_string()));
    assert_eq!(validate_host(" \t\n"), Err("SSH host is required".to_string()));
    assert_eq!(validate_host("bad host"), Err("SSH host contains invalid characters".to_string()));
    assert_eq!(validate_host("bad\u{7}host"), Err("SSH host contains invalid characters".to_string()));
    assert_eq!(validate_host("a\u{a0}b"), Err("SSH host contains invalid characters".to_string()));
    assert_eq!(validate_host(" example.com\n"), Ok(()));
    assert_eq!(validate_host(&"a".repeat(255)), Ok(()));
    assert_eq!(validate_host(&"a".repeat(256)), Err("SSH host contains invalid characters".to_string()));
    assert_eq!(validate_host(&"é".repeat(127)), Ok(()));
    assert_eq!(validate_host(&"é".repeat(128)), Err("SSH host contains invalid characters".to_string()));
    assert_eq!(validate_host("user@host"), Ok(()));
}

#[test]
fn validate_user_cases() {
    assert_eq!(validate_user(""), Err("SSH user is required".to_string()));
    assert_eq!(validate_user("   "), Err("SSH user is required".to_string()));
    for bad in ["a@b", "a:b", "a\\b", "a b", "a\u{0}"] {
        assert_eq!(validate_user(bad), Err("SSH user contains invalid characters".to_string()));
    }
    assert_eq!(validate_user(" alice "), Ok(()));
}

#[test]
fn validate_root_cases() {
    assert_eq!(validate_root(""), Err("SSH root path is required".to_string()));
    assert_eq!(validate_root("  "), Err("SSH root path is required".to_string()));
    assert_eq!(validate_root("srv"), Err("SSH root path must be absolute".to_string()));
    assert_eq!(validate_root(" /srv"), Err("SSH root path must be absolute".to_string()));
    assert_eq!(validate_root("/srv "), Ok(()));
}

#[test]
fn ssh_endpoint_cases() {
    assert_eq!(ssh_endpoint(&WorkspaceEnv::Local), Err("workspace is not SSH".to_string()));
    assert_eq!(
        ssh_endpoint(&ssh_workspace("", Some("alice"), Some(22), None)),
        Err("SSH host is required".to_string())
    );
    assert_eq!(
        ssh_endpoint(&ssh_workspace("example.com", Some(""), Some(22), None)),
        Err("SSH user is required".to_string())
    );
    assert_eq!(
        ssh_endpoint(&ssh_workspace("example.com", Some("alice"), Some(0), None)),
        Err("SSH port must be greater than zero".to_string())
    );
    assert_eq!(
        ssh_endpoint(&ssh_workspace("example.com", Some("alice"), Some(22), None)),
        Ok(("alice@example.com".to_string(), Some(22)))
    );
    assert_eq!(
        ssh_endpoint(&ssh_workspace(" example.com", None, None, None)),
        Ok((" example.com".to_string(), None))
    );
}

#[test]
fn workspace_accessors() {
    let ws = ssh_workspace("example.com", None, None, Some(""));
    assert!(is_ssh(&ws));
    assert!(!is_ssh(&WorkspaceEnv::Local));
    assert_eq!(workspace_root(&ws), Some("/srv/app"));
    assert_eq!(workspace_root(&WorkspaceEnv::Local), None);
    assert_eq!(ssh_password(&ws), None);
    let ws = ssh_workspace("example.com", None, None, Some("pw"));
    assert_eq!(ssh_password(&ws), Some("pw"));
}

#[test]
fn control_dir_and_multiplex_options() {
    assert_eq!(ssh_control_dir("/home/alice"), "/home/alice/.terax/ssh-control");
    assert_eq!(ssh_control_dir("/home/alice/"), "/home/alice/.terax/ssh-control");
    assert_eq!(ssh_control_dir(""), ".terax/ssh-control");
    assert_eq!(
        ssh_multiplex_options("/home/alice/.terax/ssh-control"),
        strings(&[
            "-o",
            "ControlMaster=auto",
            "-o",
            "ControlPersist=10m",
            "-o",
            "ControlPath=/home/alice/.terax/ssh-control/%C",
        ])
    );
}

#[test]
fn control_dir_from_home_directory() {
    assert_eq!(
        control_dir_for_home(Some("/home/bob".to_string())),
        Ok("/home/bob/.terax/ssh-control".to_string())
    );
    assert_eq!(control_dir_for_home(None), Err("home directory is unavailable".to_string()));
    match user_control_dir() {
        Ok(dir) => assert!(dir.ends_with("/.terax/ssh-control")),
        Err(e) => assert_eq!(e, "home directory is unavailable"),
    }
}

#[test]
fn auth_options_exact_lists() {
    let mux = strings(&["-o", "ControlMaster=auto"]);
    let ws = ssh_workspace("example.com", None, None, Some("pw"));
    let (args, envs) = ssh_auth_options(&ws, mux.clone(), "/tmp/askpass.sh");
    assert_eq!(
        args,
        strings(&[
            "-o",
            "StrictHostKeyChecking=accept-new",
            "-o",
            "ControlMaster=auto",
            "-o",
            "BatchMode=no",
            "-o",
            "PubkeyAuthentication=no",
            "-o",
            "PreferredAuthentications=password,keyboard-interactive",
            "-o",
            "KbdInteractiveAuthentication=yes",
            "-o",
            "NumberOfPasswordPrompts=1",
        ])
    );
    assert_eq!(
        envs,
        vec![
            ("SSH_ASKPASS".to_string(), "/tmp/askpass.sh".to_string()),
            ("SSH_ASKPASS_REQUIRE".to_string(), "force".to_string()),
            ("DISPLAY".to_string(), ":0".to_string()),
            ("TERAX_SSH_PASSWORD".to_string(), "pw".to_string()),
        ]
    );
    let ws = ssh_workspace("example.com", None, None, Some(""));
    let (args, envs) = ssh_auth_options(&ws, mux, "/tmp/askpass.sh");
    assert_eq!(args.last().map(|s| s.as_str()), Some("BatchMode=yes"));
    assert!(envs.is_empty());
}

#[test]
fn askpass_script_per_platform() {
    let (name, body) = askpass_script(false);
    assert_eq!(name, "terax-ssh-askpass.sh");
    assert_eq!(body, "#!/bin/sh\nprintf '%s\\n' \"$TERAX_SSH_PASSWORD\"\n");
    let (name, body) = askpass_script(true);
    assert_eq!(name, "terax-ssh-askpass.cmd");
    assert!(body.starts_with("@echo off\r\n"));
}

#[test]
fn request_json_matches_serde() {
    let root = "/srv/\"q\"\\\n\t\u{1}é";
    let expected = format!(
        "{{\"workspace_root\":{},\"payload\":{{}}}}",
        serde_json::to_string(root).unwrap()
    );
    assert_eq!(request_json(root, "{}"), expected);
    assert_eq!(request_json("/srv/app", "{}"), "{\"workspace_root\":\"/srv/app\",\"payload\":{}}");
}

#[test]
fn op_payloads_match_serde_objects() {
    let cases: Vec<(RemoteOp, &str, String)> = vec![
        (
            RemoteOp::ReadDir { path: "/srv/a\"b".into(), show_hidden: true },
            "read_dir",
            json_text(vec![("path", Value::from("/srv/a\"b")), ("show_hidden", Value::from(true))]),
        ),
        (
            RemoteOp::WriteFile { path: "/srv/f".into(), content: "line\nnext".into() },
            "write_file",
            json_text(vec![("path", Value::from("/srv/f")), ("content", Value::from("line\nnext"))]),
        ),
        (
            RemoteOp::Rename { from: "/a".into(), to: "/b".into() },
            "rename",
            json_text(vec![("from", Value::from("/a")), ("to", Value::from("/b"))]),
        ),
        (
            RemoteOp::Search { root: "/srv".into(), query: "x".into(), limit: Some(50), show_hidden: false },
            "search",
            json_text(vec![
                ("root", Value::from("/srv")),
                ("query", Value::from("x")),
                ("limit", Value::from(50u64)),
                ("show_hidden", Value::from(false)),
            ]),
        ),
        (
            RemoteOp::ListFiles { root: "/srv".into(), limit: None, max_depth: Some(3), show_hidden: true },
            "list_files",
            json_text(vec![
                ("root", Value::from("/srv")),
                ("limit", Value::Null),
                ("max_depth", Value::from(3u64)),
                ("show_hidden", Value::from(true)),
            ]),
        ),
        (
            RemoteOp::Grep {
                pattern: "fn".into(),
                root: "/srv".into(),
                glob: Some(strings(&["*.rs", "*.py"])),
                case_insensitive: Some(true),
                max_results: None,
            },
            "grep",
            json_text(vec![
                ("pattern", Value::from("fn")),
                ("root", Value::from("/srv")),
                ("glob", Value::from(vec!["*.rs", "*.py"])),
                ("case_insensitive", Value::from(true)),
                ("max_results", Value::Null),
            ]),
        ),
        (
            RemoteOp::Grep { pattern: "fn".into(), root: "/srv".into(), glob: None, case_insensitive: None, max_results: Some(7) },
            "grep",
            json_text(vec![
                ("pattern", Value::from("fn")),
                ("root", Value::from("/srv")),
                ("glob", Value::Null),
                ("case_insensitive", Value::Null),
                ("max_results", Value::from(7u64)),
            ]),
        ),
        (
            RemoteOp::Glob { pattern: "**/*.md".into(), root: "/srv".into(), max_results: Some(0) },
            "glob",
            json_text(vec![
                ("pattern", Value::from("**/*.md")),
                ("root", Value::from("/srv")),
                ("max_results", Value::from(0u64)),
            ]),
        ),
        (
            RemoteOp::Git { cwd: "/srv".into(), args: strings(&["status", "--short"]) },
            "git",
            json_text(vec![("cwd", Value::from("/srv")), ("args", Value::from(vec!["status", "--short"]))]),
        ),
        (
            RemoteOp::Git { cwd: "/srv".into(), args: vec![] },
            "git",
            json_text(vec![("cwd", Value::from("/srv")), ("args", Value::Array(vec![]))]),
        ),
        (
            RemoteOp::RunCrew { crew_type: "research".into(), topic: "ai".into() },
            "run_crew",
            json_text(vec![("type", Value::from("research")), ("topic", Value::from("ai"))]),
        ),
        (
            RemoteOp::Delete { path: "/srv/x".into() },
            "delete",
            json_text(vec![("path", Value::from("/srv/x"))]),
        ),
    ];
    for (op, name, expected) in cases {
        assert_eq!(op_name(&op), name);
        assert_eq!(op_payload_json(&op), expected);
    }
}

#[test]
fn prepare_remote_builds_helper_command() {
    let ws = ssh_workspace("example.com", Some("alice"), Some(2222), None);
    let op = RemoteOp::Stat { path: "/srv/app/x".into() };
    let plan = prepare_remote(&ws, &op).expect("plan");
    assert_eq!(plan.target, "alice@example.com");
    assert_eq!(plan.port, Some(2222));
    let request = "{\"workspace_root\":\"/srv/app\",\"payload\":{\"path\":\"/srv/app/x\"}}";
    let line = format!("python3 - 'stat' '{}'", request);
    assert_eq!(plan.remote_command, format!("sh -lc {}", quote_posix(&line)));

    let bad_root = WorkspaceEnv::Ssh {
        id: "i".into(),
        label: "l".into(),
        host: "h".into(),
        user: None,
        port: None,
        root_path: "relative".into(),
        password: None,
    };
    assert_eq!(
        prepare_remote(&bad_root, &op).err(),
        Some("SSH root path must be absolute".to_string())
    );
    assert_eq!(prepare_remote(&WorkspaceEnv::Local, &op).err(), Some("workspace is not SSH".to_string()));
}

#[test]
fn build_command_orders_arguments() {
    let ws = ssh_workspace("example.com", Some("alice"), Some(2222), Some("pw"));
    let op = RemoteOp::ReadFile { path: "/srv/app/a".into() };
    let plan = prepare_remote(&ws, &op).unwrap();
    let remote = plan.remote_command.clone();
    let auth = ssh_auth_options(&ws, vec![], "/tmp/ap");
    let cmd = build_command(plan, auth);
    assert_eq!(cmd.program, "ssh");
    assert_eq!(&cmd.args[..3], &strings(&["-T", "-o", "ConnectTimeout=10"])[..]);
    let n = cmd.args.len();
    assert_eq!(&cmd.args[n - 4..], &[
        "-p".to_string(),
        "2222".to_string(),
        "alice@example.com".to_string(),
        remote,
    ][..]);
    assert_eq!(cmd.envs.len(), 4);

    let ws = ssh_workspace("example.com", None, None, None);
    let plan = prepare_remote(&ws, &op).unwrap();
    let auth = ssh_auth_options(&ws, vec![], "");
    let cmd = build_command(plan, auth);
    assert!(!cmd.args.iter().any(|a| a == "-p"));
    assert_eq!(cmd.args[cmd.args.len() - 2], "example.com");
    assert!(cmd.envs.is_empty());
}

fn drain_chunks(chunks: &[&[u8]], limit: usize) -> (Vec<u8>, bool) {
    let mut out = Vec::new();
    let mut truncated = false;
    for c in chunks {
        drain_step(&mut out, &mut truncated, c, limit);
    }
    (out, truncated)
}

#[test]
fn drain_keeps_prefix_up_to_limit() {
    let chunks: [&[u8]; 3] = [b"abc", b"defg", b"h"];
    assert_eq!(drain_chunks(&chunks, 5), (b"abcde".to_vec(), true));
    assert_eq!(drain_chunks(&chunks, 8), (b"abcdefgh".to_vec(), false));
    assert_eq!(drain_chunks(&chunks, 7), (b"abcdefg".to_vec(), true));
    assert_eq!(drain_chunks(&chunks, 3), (b"abc".to_vec(), true));
    assert_eq!(drain_chunks(&chunks, 0), (Vec::new(), true));
    assert_eq!(drain_chunks(&chunks, 100), (b"abcdefgh".to_vec(), false));
}

#[test]
fn envelope_outcomes() {
    let ok: RemoteEnvelope<u32> = RemoteEnvelope { ok: true, data: Some(7), error: None };
    assert_eq!(envelope_result(ok), Ok(7));
    let empty: RemoteEnvelope<u32> = RemoteEnvelope { ok: true, data: None, error: None };
    assert_eq!(envelope_result(empty), Err("remote SSH command returned no data".to_string()));
    let failed: RemoteEnvelope<u32> = RemoteEnvelope { ok: false, data: Some(7), error: Some("boom".into()) };
    assert_eq!(envelope_result(failed), Err("boom".to_string()));
    let failed: RemoteEnvelope<u32> = RemoteEnvelope { ok: false, data: None, error: None };
    assert_eq!(envelope_result(failed), Err("remote SSH command failed".to_string()));
}

#[test]
fn finish_remote_outcomes() {
    let env: RemoteEnvelope<u32> = RemoteEnvelope { ok: true, data: Some(1), error: None };
    assert_eq!(finish_remote(true, Ok(env), b""), Err("SSH command timed out".to_string()));
    let env: RemoteEnvelope<u32> = RemoteEnvelope { ok: true, data: Some(1), error: None };
    assert_eq!(finish_remote(false, Ok(env), b"noise"), Ok(1));
    assert_eq!(
        finish_remote::<u32>(false, Err("expected value".into()), b"  Permission denied\n"),
        Err("expected value: Permission denied".to_string())
    );
    assert_eq!(
        finish_remote::<u32>(false, Err("expected value".into()), b" \n"),
        Err("expected value".to_string())
    );
}

#[test]
fn parse_failure_message_decodes_stderr_lossily() {
    assert_eq!(parse_failure_message("bad", b"\xffoops"), "bad: \u{fffd}oops");
    assert_eq!(parse_failure_message("bad", "é ok ".as_bytes()), "bad: é ok");
    assert_eq!(parse_failure_message("bad", b""), "bad");
}

#[test]
fn git_output_keeps_bytes_and_flags() {
    let out = git_output_from_remote(RemoteGitOutput {
        stdout: "é\n".into(),
        stderr: "warn".into(),
        exit_code: Some(1),
        timed_out: false,
        truncated: true,
    });
    assert_eq!(out.stdout, "é\n".as_bytes().to_vec());
    assert_eq!(out.stderr, b"warn".to_vec());
    assert_eq!(out.exit_code, Some(1));
    assert!(!out.timed_out);
    assert!(out.truncated);
}

#[test]
fn timeouts_are_clamped() {
    assert_eq!(command_timeout_secs(0), 1);
    assert_eq!(command_timeout_secs(30), 30);
    assert_eq!(command_timeout_secs(300), 120);
    assert!(matches!(poll_action(true, 999_999, 5), PollAction::Finished));
    assert!(matches!(poll_action(false, 4_999, 5), PollAction::WaitAgain));
    assert!(matches!(poll_action(false, 5_000, 5), PollAction::KillAndStop));
    assert!(matches!(poll_action(false, 1_000, 0), PollAction::KillAndStop));
    assert!(matches!(poll_action(false, 119_999, 300), PollAction::WaitAgain));
}

#[test]
fn request_json_reads_back_through_serde() {
    for root in ["/srv/app", "/srv/\"quoted\"", "/srv/back\\slash", "/srv/ctl\u{1}\u{1f}\u{7f}", "/srv/é ü"] {
        let payload = op_payload_json(&RemoteOp::ReadFile { path: format!("{root}/f\n") });
        let text = request_json(root, &payload);
        let value: Value = serde_json::from_str(&text).expect("valid JSON");
        assert_eq!(value["workspace_root"], Value::from(root));
        assert_eq!(value["payload"]["path"], Value::from(format!("{root}/f\n")));
    }
}

#[test]
fn remote_command_reads_back_op_and_request() {
    let ws = ssh_workspace("example.com", None, None, None);
    let op = RemoteOp::WriteFile { path: "/srv/app/it's".into(), content: "a 'b' c".into() };
    let plan = prepare_remote(&ws, &op).unwrap();
    let word = plan.remote_command.strip_prefix("sh -lc ").expect("sh -lc prefix");
    let line = shell_read_word(word).expect("one word");
    let rest = line.strip_prefix("python3 - ").expect("helper line");
    let (op_word, request_word) = rest.split_once(' ').expect("two words");
    assert_eq!(shell_read_word(op_word), Some("write_file".to_string()));
    let request = shell_read_word(request_word).expect("request word");
    assert_eq!(request, request_json("/srv/app", &op_payload_json(&op)));
}

#[test]
fn run_crew_needs_ssh_workspace() {
    assert_eq!(
        run_crew_op(&WorkspaceEnv::Local, "research".into(), "ai".into()).err(),
        Some("workspace is not ssh".to_string())
    );
    let ws = ssh_workspace("example.com", None, None, None);
    let op = run_crew_op(&ws, "research".into(), "ai".into()).unwrap();
    assert_eq!(op_name(&op), "run_crew");
    assert_eq!(op_payload_json(&op), "{\"topic\":\"ai\",\"type\":\"research\"}");
}
