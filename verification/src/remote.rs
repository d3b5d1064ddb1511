use vstd::prelude::*;
use vstd::utf8::{decode_utf8, encode_utf8, valid_utf8};

use crate::auth::SshAuthOptions;
use crate::json::{json_quoted, json_string};
use crate::ops::{op_name, op_name_spec, op_payload_json, payload_spec, RemoteOp};
use crate::shell::{
    lemma_quote_posix_reads_back, quote_posix, quoted, remote_shell_invocation,
    shell_invocation_spec, shell_word_value,
};
use crate::text::{append_all, chars_of, decimal, push_decimal, push_owned, trim, trim_bounds};
use crate::validate::{endpoint_spec, root_problem, ssh_endpoint, validate_root};
use crate::workspace::WorkspaceEnv;

verus! {

/// Seconds that `ssh` may take to connect.
pub const SSH_CONNECT_TIMEOUT_SECS: u64 = 10;

/// The request read by the remote helper: the workspace root and the
/// operation's payload, as a JSON object.
pub open spec fn request_json_spec(root: Seq<char>, payload_json: Seq<char>) -> Seq<char> {
    "{\"workspace_root\":"@ + json_quoted(root) + ",\"payload\":"@ + payload_json + "}"@
}

/// The JSON request for the workspace root `root` and the payload
/// `payload_json` (a JSON value).
pub fn request_json(root: &str, payload_json: &str) -> (res: String)
    ensures
        res@ == request_json_spec(root@, payload_json@),
{
    let mut out = "{\"workspace_root\":".to_owned();
    let q = json_string(root);
    out.append(q.as_str());
    out.append(",\"payload\":");
    out.append(payload_json);
    out.append("}");
    out
}

/// The remote command line: the helper program, read by `python3` from
/// standard input, with the operation and the request as its two arguments,
/// run by `sh -lc`.
pub open spec fn remote_command_spec(op: Seq<char>, request: Seq<char>) -> Seq<char> {
    shell_invocation_spec("python3 - "@ + quoted(op) + " "@ + quoted(request))
}

/// What a remote operation needs besides authentication: the `ssh`
/// destination, the port, and the remote command line.
#[derive(Debug, Clone)]
pub struct RemotePlan {
    pub target: String,
    pub port: Option<u16>,
    pub remote_command: String,
}

/// The plan for running operation `op` with `payload_json` on `workspace`,
/// or why there is none.
pub open spec fn plan_spec(workspace: WorkspaceEnv, op: Seq<char>, payload_json: Seq<char>) -> Result<
    (Seq<char>, Option<u16>, Seq<char>),
    Seq<char>,
> {
    match endpoint_spec(workspace) {
        Err(e) => Err(e),
        Ok((target, port)) => match workspace {
            WorkspaceEnv::Ssh { root_path, .. } => match root_problem(root_path@) {
                Some(e) => Err(e),
                None => Ok(
                    (
                        target,
                        port,
                        remote_command_spec(op, request_json_spec(root_path@, payload_json)),
                    ),
                ),
            },
            _ => Err("workspace is not SSH"@),
        },
    }
}

/// The view of a plan result.
pub open spec fn plan_view(res: Result<RemotePlan, String>) -> Result<
    (Seq<char>, Option<u16>, Seq<char>),
    Seq<char>,
> {
    match res {
        Ok(p) => Ok((p.target@, p.port, p.remote_command@)),
        Err(e) => Err(e@),
    }
}

/// Checks the workspace and prepares the remote command that carries out
/// `op`.
pub fn prepare_remote(workspace: &WorkspaceEnv, op: &RemoteOp) -> (res: Result<RemotePlan, String>)
    ensures
        plan_view(res) == plan_spec(*workspace, op_name_spec(*op), payload_spec(*op)),
{
    let (target, port) = ssh_endpoint(workspace)?;
    let root_path = match workspace {
        WorkspaceEnv::Ssh { root_path, .. } => {
            validate_root(root_path.as_str())?;
            root_path.as_str()
        },
        _ => {
            return Err("workspace is not SSH".to_owned());
        },
    };
    let payload = op_payload_json(op);
    let request = request_json(root_path, payload.as_str());
    let mut line = "python3 - ".to_owned();
    let q_op = quote_posix(op_name(op));
    line.append(q_op.as_str());
    line.append(" ");
    let q_req = quote_posix(request.as_str());
    line.append(q_req.as_str());
    let remote_command = remote_shell_invocation(line.as_str());
    Ok(RemotePlan { target, port, remote_command })
}

/// The arguments of `ssh` for a plan: no terminal, the connect timeout, the
/// authentication options, the port when one is set, the destination and
/// the remote command.
pub open spec fn command_args_spec(
    target: Seq<char>,
    port: Option<u16>,
    remote_command: Seq<char>,
    auth_args: Seq<Seq<char>>,
) -> Seq<Seq<char>> {
    seq!["-T"@, "-o"@, "ConnectTimeout="@ + decimal(SSH_CONNECT_TIMEOUT_SECS as nat)] + auth_args
        + match port {
        Some(p) => seq!["-p"@, decimal(p as nat)],
        None => seq![],
    } + seq![target, remote_command]
}

/// The program, arguments and environment of one `ssh` run.
#[derive(Debug, Clone)]
pub struct SshCommand {
    pub program: String,
    pub args: Vec<String>,
    pub envs: Vec<(String, String)>,
}

/// The `ssh` command that carries out `plan` with the authentication options
/// `auth`.
pub fn build_command(plan: RemotePlan, auth: SshAuthOptions) -> (res: SshCommand)
    ensures
        res.program@ == "ssh"@,
        ({
            let a = res.args.deep_view();
            let k = auth.0.deep_view().len();
            &&& a.subrange(3, 3 + k as int) == auth.0.deep_view()
            &&& a.len() == 5 + k + if plan.port is Some {
                2int
            } else {
                0
            }
            &&& a[a.len() - 2] == plan.target@
            &&& a[a.len() - 1] == plan.remote_command@
            &&& plan.port matches Some(p) ==> a[3 + k as int] == "-p"@ && a[4 + k as int] == decimal(
                p as nat,
            )
        }),
        res.args.deep_view() == command_args_spec(
            plan.target@,
            plan.port,
            plan.remote_command@,
            auth.0.deep_view(),
        ),
        res.envs.deep_view() == auth.1.deep_view(),
{
    let (auth_args, envs) = auth;
    let ghost auth_view = auth_args.deep_view();
    let mut args: Vec<String> = Vec::new();
    push_owned(&mut args, "-T");
    push_owned(&mut args, "-o");
    let mut timeout = "ConnectTimeout=".to_owned();
    push_decimal(&mut timeout, SSH_CONNECT_TIMEOUT_SECS);
    push_owned(&mut args, timeout.as_str());
    append_all(&mut args, auth_args);
    if let Some(p) = plan.port {
        push_owned(&mut args, "-p");
        let mut ps = String::new();
        push_decimal(&mut ps, p as u64);
        push_owned(&mut args, ps.as_str());
    }
    push_owned(&mut args, plan.target.as_str());
    push_owned(&mut args, plan.remote_command.as_str());
    proof {
        assert(args.deep_view() =~= command_args_spec(
            plan.target@,
            plan.port,
            plan.remote_command@,
            auth_view,
        ));
    }
    proof {
        lemma_command_args_layout(plan.target@, plan.port, plan.remote_command@, auth_view);
    }
    SshCommand { program: "ssh".to_owned(), args, envs }
}

/// Longest timeout, in seconds, of one remote command.
pub const SSH_COMMAND_TIMEOUT_SECS: u64 = 120;

/// Most bytes of standard output kept from a remote command.
pub const REMOTE_STDOUT_LIMIT: usize = 16 * 1024 * 1024;

/// Most bytes of standard error kept from a remote command.
pub const REMOTE_STDERR_LIMIT: usize = 16 * 1024;

/// Milliseconds between two checks on a running remote command.
pub const POLL_INTERVAL_MS: u64 = 50;

/// The timeout of a remote command, in seconds: the requested one, kept
/// between 1 and `SSH_COMMAND_TIMEOUT_SECS`.
pub open spec fn timeout_spec(requested: u64) -> u64 {
    if requested < 1 {
        1
    } else if requested > SSH_COMMAND_TIMEOUT_SECS {
        SSH_COMMAND_TIMEOUT_SECS
    } else {
        requested
    }
}

/// The timeout of a remote command for a requested number of seconds.
pub fn command_timeout_secs(requested: u64) -> (res: u64)
    ensures
        res == timeout_spec(requested),
{
    if requested < 1 {
        1
    } else if requested > SSH_COMMAND_TIMEOUT_SECS {
        SSH_COMMAND_TIMEOUT_SECS
    } else {
        requested
    }
}

/// What to do next while a remote command runs.
#[derive(Debug, Clone, Copy)]
pub enum PollAction {
    /// The command has exited.
    Finished,
    /// The timeout has passed: kill the command and report a timeout.
    KillAndStop,
    /// Wait `POLL_INTERVAL_MS` and check again.
    WaitAgain,
}

/// The next step of the wait for a remote command that was asked to finish
/// within `timeout_secs` seconds and has run for `elapsed_ms` milliseconds.
pub fn poll_action(exited: bool, elapsed_ms: u64, timeout_secs: u64) -> (res: PollAction)
    ensures
        exited ==> res is Finished,
        !exited && elapsed_ms >= timeout_spec(timeout_secs) * 1000 ==> res is KillAndStop,
        !exited && elapsed_ms < timeout_spec(timeout_secs) * 1000 ==> res is WaitAgain,
{
    if exited {
        return PollAction::Finished;
    }
    let limit = command_timeout_secs(timeout_secs);
    if elapsed_ms >= limit * 1000 {
        PollAction::KillAndStop
    } else {
        PollAction::WaitAgain
    }
}

/// One step of reading a stream with a byte limit: the kept bytes and
/// whether anything was dropped, after a further chunk of `chunk` bytes.
pub open spec fn drain_step_spec(out: Seq<u8>, truncated: bool, chunk: Seq<u8>, limit: nat) -> (
    Seq<u8>,
    bool,
) {
    if out.len() >= limit {
        (out, true)
    } else {
        let room = (limit - out.len()) as nat;
        let take = if room < chunk.len() {
            room
        } else {
            chunk.len()
        };
        (out + chunk.take(take as int), truncated || take < chunk.len())
    }
}

/// Keeps what fits of `chunk` (a non-empty chunk read from a stream) in
/// `out`, which is to hold at most `limit` bytes, and notes in `truncated`
/// when bytes are dropped.
pub fn drain_step(out: &mut Vec<u8>, truncated: &mut bool, chunk: &[u8], limit: usize)
    requires
        chunk.len() > 0,
    ensures
        (final(out)@, *final(truncated)) == drain_step_spec(
            old(out)@,
            *old(truncated),
            chunk@,
            limit as nat,
        ),
{
    if out.len() >= limit {
        *truncated = true;
        return;
    }
    let room = limit - out.len();
    let take = if room < chunk.len() {
        room
    } else {
        chunk.len()
    };
    let ghost start = out@;
    let mut i: usize = 0;
    while i < take
        invariant
            take <= chunk.len(),
            i <= take,
            out@ == start + chunk@.take(i as int),
        decreases take - i,
    {
        out.push(chunk[i]);
        proof {
            assert(chunk@.take(i + 1) == chunk@.take(i as int).push(chunk@[i as int]));
        }
        i = i + 1;
    }
    if take < chunk.len() {
        *truncated = true;
    }
}

/// The chunks of a stream, joined.
pub open spec fn concat_chunks(chunks: Seq<Seq<u8>>) -> Seq<u8>
    decreases chunks.len(),
{
    if chunks.len() == 0 {
        Seq::empty()
    } else {
        concat_chunks(chunks.drop_last()) + chunks.last()
    }
}

/// The kept bytes and the truncation flag after reading `chunks` one after
/// another, starting from nothing.
pub open spec fn drain_fold(chunks: Seq<Seq<u8>>, limit: nat) -> (Seq<u8>, bool)
    decreases chunks.len(),
{
    if chunks.len() == 0 {
        (Seq::empty(), false)
    } else {
        let prev = drain_fold(chunks.drop_last(), limit);
        drain_step_spec(prev.0, prev.1, chunks.last(), limit)
    }
}

/// Reading a stream chunk by chunk with `drain_step` keeps exactly the first
/// `limit` bytes of the stream (all of it when shorter), and reports
/// truncation exactly when the stream was longer than `limit`.
pub proof fn lemma_drain_keeps_prefix(chunks: Seq<Seq<u8>>, limit: nat)
    requires
        forall|i: int| 0 <= i < chunks.len() ==> #[trigger] chunks[i].len() > 0,
    ensures
        ({
            let total = concat_chunks(chunks);
            let kept = if total.len() < limit {
                total.len()
            } else {
                limit
            };
            drain_fold(chunks, limit) == (total.take(kept as int), total.len() > limit)
        }),
    decreases chunks.len(),
{
    let total = concat_chunks(chunks);
    if chunks.len() == 0 {
        assert(total.take(0) == Seq::<u8>::empty());
    } else {
        let prefix = chunks.drop_last();
        assert forall|i: int| 0 <= i < prefix.len() implies #[trigger] prefix[i].len() > 0 by {
            assert(prefix[i] == chunks[i]);
        }
        lemma_drain_keeps_prefix(prefix, limit);
        let c = concat_chunks(prefix);
        let k = chunks.last();
        assert(k == chunks[chunks.len() - 1]);
        assert(total == c + k);
        let prev = drain_fold(prefix, limit);
        if c.len() >= limit {
            assert(prev.0 == c.take(limit as int));
            assert(total.take(limit as int) =~= c.take(limit as int));
        } else {
            assert(prev.0 == c.take(c.len() as int));
            assert(c.take(c.len() as int) == c);
            let room = (limit - c.len()) as nat;
            let take = if room < k.len() {
                room
            } else {
                k.len()
            };
            assert(c + k.take(take as int) =~= total.take((c.len() + take) as int));
        }
    }
}

/// The reply of the remote helper: whether the operation succeeded, its
/// result, and an error message.
pub struct RemoteEnvelope<T> {
    pub ok: bool,
    pub data: Option<T>,
    pub error: Option<String>,
}

/// A result with its error message as a character sequence.
pub open spec fn result_view<T>(res: Result<T, String>) -> Result<T, Seq<char>> {
    match res {
        Ok(v) => Ok(v),
        Err(e) => Err(e@),
    }
}

/// The result carried by a reply: its data when it succeeded and holds any,
/// else its error message, or a fixed one.
pub open spec fn envelope_spec<T>(env: RemoteEnvelope<T>) -> Result<T, Seq<char>> {
    if !env.ok {
        Err(
            match env.error {
                Some(m) => m@,
                None => "remote SSH command failed"@,
            },
        )
    } else {
        match env.data {
            Some(d) => Ok(d),
            None => Err("remote SSH command returned no data"@),
        }
    }
}

/// The result carried by a reply.
pub fn envelope_result<T>(env: RemoteEnvelope<T>) -> (res: Result<T, String>)
    ensures
        result_view(res) == envelope_spec(env),
{
    if !env.ok {
        return match env.error {
            Some(m) => Err(m),
            None => Err("remote SSH command failed".to_owned()),
        };
    }
    match env.data {
        Some(d) => Ok(d),
        None => Err("remote SSH command returned no data".to_owned()),
    }
}

/// What `String::from_utf8_lossy` makes of `bytes`.
pub uninterp spec fn utf8_lossy(bytes: Seq<u8>) -> Seq<char>;

/// Calls `String::from_utf8_lossy`: the bytes decoded as UTF-8, each invalid
/// sequence replaced by U+FFFD; for valid UTF-8 that is the plain decoding.
/// What it gives for invalid input is left to the name `utf8_lossy`.
#[verifier::external_body]
fn string_from_utf8_lossy(bytes: &[u8]) -> (res: String)
    ensures
        res@ == utf8_lossy(bytes@),
        valid_utf8(bytes@) ==> res@ == decode_utf8(bytes@),
{
    String::from_utf8_lossy(bytes).into_owned()
}

/// The error message when the reply on standard output is not a valid
/// envelope: the parser's message, followed by the trimmed standard error
/// when that is not blank.
pub open spec fn parse_failure_spec(err: Seq<char>, stderr: Seq<u8>) -> Seq<char> {
    let t = trim(utf8_lossy(stderr));
    if t.len() > 0 {
        err + ": "@ + t
    } else {
        err
    }
}

/// The error message for a reply that could not be parsed, from the
/// parser's message and the command's standard error.
pub fn parse_failure_message(err: &str, stderr: &[u8]) -> (res: String)
    ensures
        res@ == parse_failure_spec(err@, stderr@),
{
    let text = string_from_utf8_lossy(stderr);
    let chars = chars_of(text.as_str());
    let (a, b) = trim_bounds(&chars);
    let mut out = err.to_owned();
    if a < b {
        let t = text.as_str().substring_char(a, b);
        out.append(": ");
        out.append(t);
    }
    out
}

/// The outcome of a remote command: a timeout, a reply that could not be
/// parsed, or what the reply carries.
pub open spec fn finish_spec<T>(
    timed_out: bool,
    parsed: Result<RemoteEnvelope<T>, String>,
    stderr: Seq<u8>,
) -> Result<T, Seq<char>> {
    if timed_out {
        Err("SSH command timed out"@)
    } else {
        match parsed {
            Err(m) => Err(parse_failure_spec(m@, stderr)),
            Ok(env) => envelope_spec(env),
        }
    }
}

/// The outcome of a remote command, from whether it timed out, the parsed
/// envelope on its standard output (or the parser's error message), and its
/// standard error.
pub fn finish_remote<T>(
    timed_out: bool,
    parsed: Result<RemoteEnvelope<T>, String>,
    stderr: &[u8],
) -> (res: Result<T, String>)
    ensures
        result_view(res) == finish_spec(timed_out, parsed, stderr@),
        timed_out ==> res is Err && res->Err_0@ == "SSH command timed out"@,
        !timed_out && parsed is Err ==> res is Err && res->Err_0@.take(
            parsed->Err_0@.len() as int,
        ) == parsed->Err_0@,
{
    proof {
        lemma_timeout_overrides_reply(parsed, stderr@);
        if parsed is Err {
            lemma_unparsed_reply_keeps_parser_message::<T>(parsed->Err_0, stderr@);
        }
    }
    if timed_out {
        return Err("SSH command timed out".to_owned());
    }
    match parsed {
        Err(m) => Err(parse_failure_message(m.as_str(), stderr)),
        Ok(env) => envelope_result(env),
    }
}

/// What the remote helper reports for a `git` run.
pub struct RemoteGitOutput {
    pub stdout: String,
    pub stderr: String,
    pub exit_code: Option<i32>,
    pub timed_out: bool,
    pub truncated: bool,
}

/// The output of a `git` run.
#[derive(Debug, Clone)]
pub struct GitOutput {
    pub stdout: Vec<u8>,
    pub stderr: Vec<u8>,
    pub exit_code: Option<i32>,
    pub timed_out: bool,
    pub truncated: bool,
}

/// The output of a remote `git` run, with its text as UTF-8 bytes.
pub fn git_output_from_remote(out: RemoteGitOutput) -> (res: GitOutput)
    ensures
        res.stdout@ == encode_utf8(out.stdout@),
        res.stderr@ == encode_utf8(out.stderr@),
        res.exit_code == out.exit_code,
        res.timed_out == out.timed_out,
        res.truncated == out.truncated,
{
    GitOutput {
        stdout: out.stdout.as_str().as_bytes_vec(),
        stderr: out.stderr.as_str().as_bytes_vec(),
        exit_code: out.exit_code,
        timed_out: out.timed_out,
        truncated: out.truncated,
    }
}

/// The remote command is `sh -lc` with one word whose value is the helper's
/// command line, and on that line the operation name and the request are
/// single words that the shell reads back exactly.
pub proof fn lemma_remote_command_reads_back(op: Seq<char>, request: Seq<char>)
    ensures
        ({
            let line = "python3 - "@ + quoted(op) + " "@ + quoted(request);
            &&& remote_command_spec(op, request) == "sh -lc "@ + quoted(line)
            &&& shell_word_value(quoted(line)) == Some(line)
            &&& shell_word_value(quoted(op)) == Some(op)
            &&& shell_word_value(quoted(request)) == Some(request)
        }),
{
    let line = "python3 - "@ + quoted(op) + " "@ + quoted(request);
    lemma_quote_posix_reads_back(line);
    lemma_quote_posix_reads_back(op);
    lemma_quote_posix_reads_back(request);
}

/// A remote command that timed out always ends in the timeout error,
/// whatever its standard output parsed to and whatever its standard error
/// holds.
pub proof fn lemma_timeout_overrides_reply<T>(parsed: Result<RemoteEnvelope<T>, String>, stderr: Seq<u8>)
    ensures
        finish_spec(true, parsed, stderr) == Err::<T, Seq<char>>("SSH command timed out"@),
{
}

/// When the command did not time out and its reply could not be parsed, the
/// error starts with the parser's message, and nothing the reply might have
/// carried comes back as a success.
pub proof fn lemma_unparsed_reply_keeps_parser_message<T>(msg: String, stderr: Seq<u8>)
    ensures
        ({
            let r = finish_spec(false, Err::<RemoteEnvelope<T>, String>(msg), stderr);
            &&& r is Err
            &&& r->Err_0.take(msg@.len() as int) == msg@
            &&& r->Err_0.len() >= msg@.len()
        }),
{
    let t = trim(utf8_lossy(stderr));
    if t.len() > 0 {
        assert((msg@ + ": "@ + t).take(msg@.len() as int) =~= msg@);
    } else {
        assert(msg@.take(msg@.len() as int) =~= msg@);
    }
}

/// The `ssh` arguments hold, in this order: `-T`, `-o` and the connect
/// timeout; every authentication argument as given; `-p` and the port when a
/// port is set; and last the destination and the remote command.
pub proof fn lemma_command_args_layout(
    target: Seq<char>,
    port: Option<u16>,
    remote_command: Seq<char>,
    auth_args: Seq<Seq<char>>,
)
    ensures
        ({
            let a = command_args_spec(target, port, remote_command, auth_args);
            let k = auth_args.len();
            &&& a[0] == "-T"@
            &&& a[1] == "-o"@
            &&& a[2] == "ConnectTimeout="@ + decimal(SSH_CONNECT_TIMEOUT_SECS as nat)
            &&& a.subrange(3, 3 + k as int) == auth_args
            &&& a.len() == 5 + k + if port is Some {
                2int
            } else {
                0
            }
            &&& a[a.len() - 2] == target
            &&& a[a.len() - 1] == remote_command
            &&& port matches Some(p) ==> a[3 + k as int] == "-p"@ && a[4 + k as int] == decimal(
                p as nat,
            )
        }),
{
    let a = command_args_spec(target, port, remote_command, auth_args);
    let k = auth_args.len();
    assert(a.subrange(3, 3 + k as int) =~= auth_args);
}

} // verus!
