use vstd::prelude::*;

use crate::workspace::{is_ssh, WorkspaceEnv};

use crate::json::{
    json_bool, json_bool_text, json_null_text, json_object, json_object_text, json_opt_bool, json_opt_bool_text,
    json_opt_count, json_opt_count_text, json_opt_strings, json_quoted, json_string,
    json_string_array_text,
};

verus! {

/// An operation carried out by the helper on the remote host, with its
/// arguments.
pub enum RemoteOp {
    ReadDir { path: String, show_hidden: bool },
    ListSubdirs { path: String, show_hidden: bool },
    ReadFile { path: String },
    WriteFile { path: String, content: String },
    Stat { path: String },
    Canonicalize { path: String },
    CreateFile { path: String },
    CreateDir { path: String },
    Rename { from: String, to: String },
    Delete { path: String },
    Search { root: String, query: String, limit: Option<usize>, show_hidden: bool },
    ListFiles {
        root: String,
        limit: Option<usize>,
        max_depth: Option<usize>,
        show_hidden: bool,
    },
    Grep {
        pattern: String,
        root: String,
        glob: Option<Vec<String>>,
        case_insensitive: Option<bool>,
        max_results: Option<usize>,
    },
    Glob { pattern: String, root: String, max_results: Option<usize> },
    Git { cwd: String, args: Vec<String> },
    RunCrew { crew_type: String, topic: String },
}

/// The name under which the remote helper knows an operation.
pub open spec fn op_name_spec(op: RemoteOp) -> Seq<char> {
    match op {
        RemoteOp::ReadDir { .. } => "read_dir"@,
        RemoteOp::ListSubdirs { .. } => "list_subdirs"@,
        RemoteOp::ReadFile { .. } => "read_file"@,
        RemoteOp::WriteFile { .. } => "write_file"@,
        RemoteOp::Stat { .. } => "stat"@,
        RemoteOp::Canonicalize { .. } => "canonicalize"@,
        RemoteOp::CreateFile { .. } => "create_file"@,
        RemoteOp::CreateDir { .. } => "create_dir"@,
        RemoteOp::Rename { .. } => "rename"@,
        RemoteOp::Delete { .. } => "delete"@,
        RemoteOp::Search { .. } => "search"@,
        RemoteOp::ListFiles { .. } => "list_files"@,
        RemoteOp::Grep { .. } => "grep"@,
        RemoteOp::Glob { .. } => "glob"@,
        RemoteOp::Git { .. } => "git"@,
        RemoteOp::RunCrew { .. } => "run_crew"@,
    }
}

/// The name under which the remote helper knows `op`.
pub fn op_name(op: &RemoteOp) -> (res: &'static str)
    ensures
        res@ == op_name_spec(*op),
{
    match op {
        RemoteOp::ReadDir { .. } => "read_dir",
        RemoteOp::ListSubdirs { .. } => "list_subdirs",
        RemoteOp::ReadFile { .. } => "read_file",
        RemoteOp::WriteFile { .. } => "write_file",
        RemoteOp::Stat { .. } => "stat",
        RemoteOp::Canonicalize { .. } => "canonicalize",
        RemoteOp::CreateFile { .. } => "create_file",
        RemoteOp::CreateDir { .. } => "create_dir",
        RemoteOp::Rename { .. } => "rename",
        RemoteOp::Delete { .. } => "delete",
        RemoteOp::Search { .. } => "search",
        RemoteOp::ListFiles { .. } => "list_files",
        RemoteOp::Grep { .. } => "grep",
        RemoteOp::Glob { .. } => "glob",
        RemoteOp::Git { .. } => "git",
        RemoteOp::RunCrew { .. } => "run_crew",
    }
}

/// The payload of an operation: a JSON object of its arguments, with the
/// keys in sorted order.
pub open spec fn payload_spec(op: RemoteOp) -> Seq<char> {
    match op {
        RemoteOp::ReadDir { path, show_hidden } | RemoteOp::ListSubdirs { path, show_hidden } =>
            json_object(
            seq![("path"@, json_quoted(path@)), ("show_hidden"@, json_bool(show_hidden))],
        ),
        RemoteOp::ReadFile { path }
        | RemoteOp::Stat { path }
        | RemoteOp::Canonicalize { path }
        | RemoteOp::CreateFile { path }
        | RemoteOp::CreateDir { path }
        | RemoteOp::Delete { path } => json_object(seq![("path"@, json_quoted(path@))]),
        RemoteOp::WriteFile { path, content } => json_object(
            seq![("content"@, json_quoted(content@)), ("path"@, json_quoted(path@))],
        ),
        RemoteOp::Rename { from, to } => json_object(
            seq![("from"@, json_quoted(from@)), ("to"@, json_quoted(to@))],
        ),
        RemoteOp::Search { root, query, limit, show_hidden } => json_object(
            seq![
                ("limit"@, json_opt_count(limit)),
                ("query"@, json_quoted(query@)),
                ("root"@, json_quoted(root@)),
                ("show_hidden"@, json_bool(show_hidden)),
            ],
        ),
        RemoteOp::ListFiles { root, limit, max_depth, show_hidden } => json_object(
            seq![
                ("limit"@, json_opt_count(limit)),
                ("max_depth"@, json_opt_count(max_depth)),
                ("root"@, json_quoted(root@)),
                ("show_hidden"@, json_bool(show_hidden)),
            ],
        ),
        RemoteOp::Grep { pattern, root, glob, case_insensitive, max_results } => json_object(
            seq![
                ("case_insensitive"@, json_opt_bool(case_insensitive)),
                ("glob"@, json_opt_strings(glob.deep_view())),
                ("max_results"@, json_opt_count(max_results)),
                ("pattern"@, json_quoted(pattern@)),
                ("root"@, json_quoted(root@)),
            ],
        ),
        RemoteOp::Glob { pattern, root, max_results } => json_object(
            seq![
                ("max_results"@, json_opt_count(max_results)),
                ("pattern"@, json_quoted(pattern@)),
                ("root"@, json_quoted(root@)),
            ],
        ),
        RemoteOp::Git { cwd, args } => json_object(
            seq![
                ("args"@, json_opt_strings(Some(args.deep_view()))),
                ("cwd"@, json_quoted(cwd@)),
            ],
        ),
        RemoteOp::RunCrew { crew_type, topic } => json_object(
            seq![("topic"@, json_quoted(topic@)), ("type"@, json_quoted(crew_type@))],
        ),
    }
}

fn push_member(members: &mut Vec<(String, String)>, key: &str, value: String)
    ensures
        final(members).deep_view() == old(members).deep_view().push((key@, value@)),
{
    members.push((key.to_owned(), value));
    proof {
        assert(members.deep_view() =~= old(members).deep_view().push((key@, value@)));
    }
}

/// The JSON payload of `op`.
pub fn op_payload_json(op: &RemoteOp) -> (res: String)
    ensures
        res@ == payload_spec(*op),
{
    let mut m: Vec<(String, String)> = Vec::new();
    match op {
        RemoteOp::ReadDir { path, show_hidden } | RemoteOp::ListSubdirs { path, show_hidden } => {
            push_member(&mut m, "path", json_string(path.as_str()));
            push_member(&mut m, "show_hidden", json_bool_text(*show_hidden));
        },
        RemoteOp::ReadFile { path }
        | RemoteOp::Stat { path }
        | RemoteOp::Canonicalize { path }
        | RemoteOp::CreateFile { path }
        | RemoteOp::CreateDir { path }
        | RemoteOp::Delete { path } => {
            push_member(&mut m, "path", json_string(path.as_str()));
        },
        RemoteOp::WriteFile { path, content } => {
            push_member(&mut m, "content", json_string(content.as_str()));
            push_member(&mut m, "path", json_string(path.as_str()));
        },
        RemoteOp::Rename { from, to } => {
            push_member(&mut m, "from", json_string(from.as_str()));
            push_member(&mut m, "to", json_string(to.as_str()));
        },
        RemoteOp::Search { root, query, limit, show_hidden } => {
            push_member(&mut m, "limit", json_opt_count_text(*limit));
            push_member(&mut m, "query", json_string(query.as_str()));
            push_member(&mut m, "root", json_string(root.as_str()));
            push_member(&mut m, "show_hidden", json_bool_text(*show_hidden));
        },
        RemoteOp::ListFiles { root, limit, max_depth, show_hidden } => {
            push_member(&mut m, "limit", json_opt_count_text(*limit));
            push_member(&mut m, "max_depth", json_opt_count_text(*max_depth));
            push_member(&mut m, "root", json_string(root.as_str()));
            push_member(&mut m, "show_hidden", json_bool_text(*show_hidden));
        },
        RemoteOp::Grep { pattern, root, glob, case_insensitive, max_results } => {
            push_member(&mut m, "case_insensitive", json_opt_bool_text(*case_insensitive));
            let g = match glob {
                Some(items) => json_string_array_text(items),
                None => json_null_text(),
            };
            push_member(&mut m, "glob", g);
            push_member(&mut m, "max_results", json_opt_count_text(*max_results));
            push_member(&mut m, "pattern", json_string(pattern.as_str()));
            push_member(&mut m, "root", json_string(root.as_str()));
        },
        RemoteOp::Glob { pattern, root, max_results } => {
            push_member(&mut m, "max_results", json_opt_count_text(*max_results));
            push_member(&mut m, "pattern", json_string(pattern.as_str()));
            push_member(&mut m, "root", json_string(root.as_str()));
        },
        RemoteOp::Git { cwd, args } => {
            push_member(&mut m, "args", json_string_array_text(args));
            push_member(&mut m, "cwd", json_string(cwd.as_str()));
        },
        RemoteOp::RunCrew { crew_type, topic } => {
            push_member(&mut m, "topic", json_string(topic.as_str()));
            push_member(&mut m, "type", json_string(crew_type.as_str()));
        },
    }
    proof {
        assert(m.deep_view() =~= match *op {
            RemoteOp::ReadDir { path, show_hidden } | RemoteOp::ListSubdirs { path, show_hidden } =>
                seq![("path"@, json_quoted(path@)), ("show_hidden"@, json_bool(show_hidden))],
            RemoteOp::ReadFile { path }
            | RemoteOp::Stat { path }
            | RemoteOp::Canonicalize { path }
            | RemoteOp::CreateFile { path }
            | RemoteOp::CreateDir { path }
            | RemoteOp::Delete { path } => seq![("path"@, json_quoted(path@))],
            RemoteOp::WriteFile { path, content } => seq![
                ("content"@, json_quoted(content@)),
                ("path"@, json_quoted(path@)),
            ],
            RemoteOp::Rename { from, to } => seq![
                ("from"@, json_quoted(from@)),
                ("to"@, json_quoted(to@)),
            ],
            RemoteOp::Search { root, query, limit, show_hidden } => seq![
                ("limit"@, json_opt_count(limit)),
                ("query"@, json_quoted(query@)),
                ("root"@, json_quoted(root@)),
                ("show_hidden"@, json_bool(show_hidden)),
            ],
            RemoteOp::ListFiles { root, limit, max_depth, show_hidden } => seq![
                ("limit"@, json_opt_count(limit)),
                ("max_depth"@, json_opt_count(max_depth)),
                ("root"@, json_quoted(root@)),
                ("show_hidden"@, json_bool(show_hidden)),
            ],
            RemoteOp::Grep { pattern, root, glob, case_insensitive, max_results } => seq![
                ("case_insensitive"@, json_opt_bool(case_insensitive)),
                ("glob"@, json_opt_strings(glob.deep_view())),
                ("max_results"@, json_opt_count(max_results)),
                ("pattern"@, json_quoted(pattern@)),
                ("root"@, json_quoted(root@)),
            ],
            RemoteOp::Glob { pattern, root, max_results } => seq![
                ("max_results"@, json_opt_count(max_results)),
                ("pattern"@, json_quoted(pattern@)),
                ("root"@, json_quoted(root@)),
            ],
            RemoteOp::Git { cwd, args } => seq![
                ("args"@, json_opt_strings(Some(args.deep_view()))),
                ("cwd"@, json_quoted(cwd@)),
            ],
            RemoteOp::RunCrew { crew_type, topic } => seq![
                ("topic"@, json_quoted(topic@)),
                ("type"@, json_quoted(crew_type@)),
            ],
        });
    }
    json_object_text(&m)
}

/// Seconds asked for a crew run (the remote command timeout still caps it).
pub const RUN_CREW_TIMEOUT_SECS: u64 = 300;

/// The crew run for a workspace: refused unless the workspace is reached
/// over SSH.
pub fn run_crew_op(workspace: &WorkspaceEnv, crew_type: String, topic: String) -> (res: Result<
    RemoteOp,
    String,
>)
    ensures
        workspace is Ssh ==> res == Ok::<RemoteOp, String>(RemoteOp::RunCrew { crew_type, topic }),
        !(workspace is Ssh) ==> res is Err && res->Err_0@ == "workspace is not ssh"@,
{
    if !is_ssh(workspace) {
        return Err("workspace is not ssh".to_owned());
    }
    Ok(RemoteOp::RunCrew { crew_type, topic })
}

/// Each kind of operation has a name of its own: two operations share a
/// name only when they are of the same kind, so the helper can tell every
/// operation apart by its name.
pub proof fn lemma_op_names_distinct(a: RemoteOp, b: RemoteOp)
    requires
        op_name_spec(a) == op_name_spec(b),
    ensures
        a is ReadDir <==> b is ReadDir,
        a is ListSubdirs <==> b is ListSubdirs,
        a is ReadFile <==> b is ReadFile,
        a is WriteFile <==> b is WriteFile,
        a is Stat <==> b is Stat,
        a is Canonicalize <==> b is Canonicalize,
        a is CreateFile <==> b is CreateFile,
        a is CreateDir <==> b is CreateDir,
        a is Rename <==> b is Rename,
        a is Delete <==> b is Delete,
        a is Search <==> b is Search,
        a is ListFiles <==> b is ListFiles,
        a is Grep <==> b is Grep,
        a is Glob <==> b is Glob,
        a is Git <==> b is Git,
        a is RunCrew <==> b is RunCrew,
{
    reveal_strlit("read_dir");
    reveal_strlit("list_subdirs");
    reveal_strlit("read_file");
    reveal_strlit("write_file");
    reveal_strlit("stat");
    reveal_strlit("canonicalize");
    reveal_strlit("create_file");
    reveal_strlit("create_dir");
    reveal_strlit("rename");
    reveal_strlit("delete");
    reveal_strlit("search");
    reveal_strlit("list_files");
    reveal_strlit("grep");
    reveal_strlit("glob");
    reveal_strlit("git");
    reveal_strlit("run_crew");
    let n = op_name_spec(a);
    let m = op_name_spec(b);
    assert(n.len() == m.len() && n[0] == m[0] && n[1] == m[1]);
}

/// The names under which the remote helper's dispatch carries out each
/// operation (`read_dir` lists a directory, `create_dir` makes a directory,
/// `create_file` makes an empty file, and so on).
pub proof fn lemma_op_names_match_helper(op: RemoteOp)
    ensures
        match op {
            RemoteOp::ReadDir { .. } => op_name_spec(op) == "read_dir"@,
            RemoteOp::ListSubdirs { .. } => op_name_spec(op) == "list_subdirs"@,
            RemoteOp::ReadFile { .. } => op_name_spec(op) == "read_file"@,
            RemoteOp::WriteFile { .. } => op_name_spec(op) == "write_file"@,
            RemoteOp::Stat { .. } => op_name_spec(op) == "stat"@,
            RemoteOp::Canonicalize { .. } => op_name_spec(op) == "canonicalize"@,
            RemoteOp::CreateFile { .. } => op_name_spec(op) == "create_file"@,
            RemoteOp::CreateDir { .. } => op_name_spec(op) == "create_dir"@,
            RemoteOp::Rename { .. } => op_name_spec(op) == "rename"@,
            RemoteOp::Delete { .. } => op_name_spec(op) == "delete"@,
            RemoteOp::Search { .. } => op_name_spec(op) == "search"@,
            RemoteOp::ListFiles { .. } => op_name_spec(op) == "list_files"@,
            RemoteOp::Grep { .. } => op_name_spec(op) == "grep"@,
            RemoteOp::Glob { .. } => op_name_spec(op) == "glob"@,
            RemoteOp::Git { .. } => op_name_spec(op) == "git"@,
            RemoteOp::RunCrew { .. } => op_name_spec(op) == "run_crew"@,
        },
{
}

} // verus!
