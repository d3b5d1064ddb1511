use vstd::prelude::*;
use vstd::utf8::encode_utf8;

use crate::text::{
    all_ws, char_is_control, char_is_whitespace, chars_of, is_control, is_ws, trim, trim_bounds,
    utf8_len_exceeds,
};
use crate::workspace::WorkspaceEnv;

verus! {

/// Characters that may not appear inside a host name.
pub open spec fn host_char_invalid(c: char) -> bool {
    is_control(c) || is_ws(c)
}

/// Characters that may not appear inside a user name.
pub open spec fn user_char_invalid(c: char) -> bool {
    is_control(c) || is_ws(c) || c == '@' || c == ':' || c == '\\'
}

/// Whether the bad characters of a user name (`user`) or of a host name
/// (`!user`) occur in `s`.
pub open spec fn has_invalid_char(s: Seq<char>, user: bool) -> bool {
    exists|i: int|
        0 <= i < s.len() && if user {
            user_char_invalid(#[trigger] s[i])
        } else {
            host_char_invalid(s[i])
        }
}

/// What is wrong with a host name, if anything: blank, or (after trimming)
/// longer than 255 bytes or holding control or whitespace characters.
pub open spec fn host_problem(host: Seq<char>) -> Option<Seq<char>> {
    let t = trim(host);
    if t.len() == 0 {
        Some("SSH host is required"@)
    } else if encode_utf8(t).len() > 255 || has_invalid_char(t, false) {
        Some("SSH host contains invalid characters"@)
    } else {
        None
    }
}

/// What is wrong with a user name, if anything: blank, or (after trimming)
/// longer than 255 bytes or holding control or whitespace characters, `@`,
/// `:` or `\`.
pub open spec fn user_problem(user: Seq<char>) -> Option<Seq<char>> {
    let t = trim(user);
    if t.len() == 0 {
        Some("SSH user is required"@)
    } else if encode_utf8(t).len() > 255 || has_invalid_char(t, true) {
        Some("SSH user contains invalid characters"@)
    } else {
        None
    }
}

/// What is wrong with a remote root path, if anything: blank, or not
/// starting with `/`.
pub open spec fn root_problem(root: Seq<char>) -> Option<Seq<char>> {
    if all_ws(root) {
        Some("SSH root path is required"@)
    } else if root[0] != '/' {
        Some("SSH root path must be absolute"@)
    } else {
        None
    }
}

/// The check's result matches the problem found, if any.
pub open spec fn check_matches(res: Result<(), String>, problem: Option<Seq<char>>) -> bool {
    match problem {
        None => res is Ok,
        Some(msg) => res matches Err(e) && e@ == msg,
    }
}

fn find_invalid_char(s: &Vec<char>, lo: usize, hi: usize, user: bool) -> (res: bool)
    requires
        lo <= hi <= s.len(),
    ensures
        res == has_invalid_char(s@.subrange(lo as int, hi as int), user),
{
    let ghost t = s@.subrange(lo as int, hi as int);
    let mut i: usize = lo;
    while i < hi
        invariant
            lo <= i <= hi <= s.len(),
            t == s@.subrange(lo as int, hi as int),
            forall|j: int|
                0 <= j < i - lo ==> !(if user {
                    user_char_invalid(#[trigger] t[j])
                } else {
                    host_char_invalid(t[j])
                }),
        decreases hi - i,
    {
        let c = s[i];
        let bad = char_is_control(c) || char_is_whitespace(c) || (user && (c == '@' || c == ':'
            || c == '\\'));
        if bad {
            assert(t[i - lo] == c);
            return true;
        }
        assert(t[i - lo] == c);
        i = i + 1;
    }
    false
}

/// Checks an SSH host name.
pub fn validate_host(host: &str) -> (res: Result<(), String>)
    ensures
        check_matches(res, host_problem(host@)),
        res is Ok <==> ({
            let t = trim(host@);
            &&& t.len() > 0
            &&& encode_utf8(t).len() <= 255
            &&& forall|i: int| 0 <= i < t.len() ==> !is_control(#[trigger] t[i]) && !is_ws(t[i])
        }),
{
    proof {
        lemma_host_accepted_exactly(host@);
    }
    let chars = chars_of(host);
    let (a, b) = trim_bounds(&chars);
    if a == b {
        return Err("SSH host is required".to_owned());
    }
    if utf8_len_exceeds(&chars, a, b, 255) || find_invalid_char(&chars, a, b, false) {
        return Err("SSH host contains invalid characters".to_owned());
    }
    Ok(())
}

/// Checks an SSH user name.
pub fn validate_user(user: &str) -> (res: Result<(), String>)
    ensures
        check_matches(res, user_problem(user@)),
        res is Ok <==> ({
            let t = trim(user@);
            &&& t.len() > 0
            &&& encode_utf8(t).len() <= 255
            &&& forall|i: int|
                0 <= i < t.len() ==> !is_control(#[trigger] t[i]) && !is_ws(t[i]) && t[i] != '@'
                    && t[i] != ':' && t[i] != '\\'
        }),
{
    proof {
        lemma_user_accepted_exactly(user@);
    }
    let chars = chars_of(user);
    let (a, b) = trim_bounds(&chars);
    if a == b {
        return Err("SSH user is required".to_owned());
    }
    if utf8_len_exceeds(&chars, a, b, 255) || find_invalid_char(&chars, a, b, true) {
        return Err("SSH user contains invalid characters".to_owned());
    }
    Ok(())
}

/// Checks the root directory of an SSH workspace.
pub fn validate_root(root: &str) -> (res: Result<(), String>)
    ensures
        check_matches(res, root_problem(root@)),
{
    let chars = chars_of(root);
    let (a, b) = trim_bounds(&chars);
    if a == b {
        return Err("SSH root path is required".to_owned());
    }
    if chars[0] != '/' {
        return Err("SSH root path must be absolute".to_owned());
    }
    Ok(())
}

/// The `ssh` destination (`user@host`, or the bare host) and port of a
/// workspace, or why it has none.
pub open spec fn endpoint_spec(workspace: WorkspaceEnv) -> Result<(Seq<char>, Option<u16>), Seq<char>> {
    match workspace {
        WorkspaceEnv::Ssh { host, user, port, .. } => {
            if host_problem(host@) is Some {
                Err(host_problem(host@)->0)
            } else if user matches Some(u) && user_problem(u@) is Some {
                Err(user_problem(user->0@)->0)
            } else if port == Some(0u16) {
                Err("SSH port must be greater than zero"@)
            } else {
                Ok(
                    (
                        match user {
                            Some(u) => u@ + "@"@ + host@,
                            None => host@,
                        },
                        port,
                    ),
                )
            }
        },
        _ => Err("workspace is not SSH"@),
    }
}

/// The view of an endpoint result.
pub open spec fn endpoint_view(res: Result<(String, Option<u16>), String>) -> Result<
    (Seq<char>, Option<u16>),
    Seq<char>,
> {
    match res {
        Ok((t, p)) => Ok((t@, p)),
        Err(e) => Err(e@),
    }
}

/// Checks an SSH workspace's host, user and port, and gives the `ssh`
/// destination and port.
pub fn ssh_endpoint(workspace: &WorkspaceEnv) -> (res: Result<(String, Option<u16>), String>)
    ensures
        endpoint_view(res) == endpoint_spec(*workspace),
        res is Ok ==> match *workspace {
            WorkspaceEnv::Ssh { host, user, port, .. } => {
                &&& res->Ok_0.1 == port
                &&& port != Some(0u16)
                &&& match user {
                    Some(u) => res->Ok_0.0@ == u@ + "@"@ + host@,
                    None => res->Ok_0.0@ == host@,
                }
            },
            _ => false,
        },
{
    proof {
        lemma_endpoint_destination(*workspace);
    }
    match workspace {
        WorkspaceEnv::Ssh { host, user, port, .. } => {
            validate_host(host.as_str())?;
            if let Some(u) = user {
                validate_user(u.as_str())?;
            }
            if let Some(p) = port {
                if *p == 0 {
                    return Err("SSH port must be greater than zero".to_owned());
                }
            }
            let target = match user {
                Some(u) => {
                    let mut t = u.clone();
                    t.append("@");
                    t.append(host.as_str());
                    t
                },
                None => host.clone(),
            };
            Ok((target, *port))
        },
        _ => Err("workspace is not SSH".to_owned()),
    }
}

/// A user name is accepted exactly when its trimmed text is not empty, is at
/// most 255 bytes long in UTF-8, and holds no control or whitespace character
/// and none of `@`, `:` and `\`.
pub proof fn lemma_user_accepted_exactly(user: Seq<char>)
    ensures
        user_problem(user) is None <==> ({
            let t = trim(user);
            &&& t.len() > 0
            &&& encode_utf8(t).len() <= 255
            &&& forall|i: int|
                0 <= i < t.len() ==> !is_control(#[trigger] t[i]) && !is_ws(t[i]) && t[i] != '@'
                    && t[i] != ':' && t[i] != '\\'
        }),
{
    let t = trim(user);
    if has_invalid_char(t, true) {
        let i = choose|i: int| 0 <= i < t.len() && user_char_invalid(#[trigger] t[i]);
        assert(user_char_invalid(t[i]));
    }
}

/// A host name is accepted exactly when its trimmed text is not empty, is at
/// most 255 bytes long in UTF-8, and holds no control or whitespace
/// character.
pub proof fn lemma_host_accepted_exactly(host: Seq<char>)
    ensures
        host_problem(host) is None <==> ({
            let t = trim(host);
            &&& t.len() > 0
            &&& encode_utf8(t).len() <= 255
            &&& forall|i: int| 0 <= i < t.len() ==> !is_control(#[trigger] t[i]) && !is_ws(t[i])
        }),
{
    let t = trim(host);
    if has_invalid_char(t, false) {
        let i = choose|i: int| 0 <= i < t.len() && host_char_invalid(#[trigger] t[i]);
        assert(host_char_invalid(t[i]));
    }
}

/// A workspace has an endpoint exactly when it is an SSH workspace whose
/// host is accepted, whose user (if any) is accepted, and whose port (if
/// any) is not zero; the endpoint's port is the workspace's port, and its
/// destination is `user@host` when a user is set and the host otherwise.
pub proof fn lemma_endpoint_destination(workspace: WorkspaceEnv)
    ensures
        match workspace {
            WorkspaceEnv::Ssh { host, user, port, .. } => {
                &&& endpoint_spec(workspace) is Ok <==> {
                    &&& host_problem(host@) is None
                    &&& user matches Some(u) ==> user_problem(u@) is None
                    &&& port != Some(0u16)
                }
                &&& endpoint_spec(workspace) is Ok ==> {
                    let (target, p) = endpoint_spec(workspace)->Ok_0;
                    &&& p == port
                    &&& match user {
                        Some(u) => target == u@ + "@"@ + host@,
                        None => target == host@,
                    }
                }
            },
            _ => endpoint_spec(workspace) is Err,
        },
{
}

} // verus!
