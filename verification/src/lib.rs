//! Building and checking the SSH invocations that run workspace operations on a
//! remote host: endpoint validation, POSIX quoting, the remote login bootstrap,
//! authentication options, request framing, and the interpretation of the
//! remote reply.

pub mod auth;
pub mod json;
pub mod ops;
pub mod remote;
pub mod shell;
pub mod text;
pub mod validate;
pub mod workspace;

pub use auth::{
    askpass_script, control_dir_for_home, ssh_auth_options, ssh_control_dir,
    ssh_multiplex_options, user_control_dir, SshAuthOptions,
};
pub use ops::{op_name, op_payload_json, run_crew_op, RemoteOp, RUN_CREW_TIMEOUT_SECS};
pub use remote::{
    build_command, command_timeout_secs, drain_step, envelope_result, finish_remote,
    git_output_from_remote, parse_failure_message, poll_action, prepare_remote, request_json,
    GitOutput, PollAction, RemoteEnvelope, RemoteGitOutput, RemotePlan, SshCommand,
    POLL_INTERVAL_MS, REMOTE_STDERR_LIMIT, REMOTE_STDOUT_LIMIT, SSH_COMMAND_TIMEOUT_SECS,
    SSH_CONNECT_TIMEOUT_SECS,
};
pub use shell::{
    quote_posix, remote_login_command, remote_login_shell_bootstrap,
    remote_login_shell_bootstrap_with, remote_shell_command, remote_shell_invocation,
    ShellInitScripts,
};
pub use validate::{ssh_endpoint, validate_host, validate_root, validate_user};
pub use workspace::{is_ssh, ssh_password, workspace_root, WorkspaceEnv};
