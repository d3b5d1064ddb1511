use vstd::prelude::*;

verus! {

/// Where a workspace lives: on this machine, or under a root directory of a
/// host reached over SSH.
#[derive(Debug, Clone)]
pub enum WorkspaceEnv {
    Local,
    Ssh {
        id: String,
        label: String,
        host: String,
        user: Option<String>,
        port: Option<u16>,
        root_path: String,
        password: Option<String>,
    },
}

/// Whether the workspace is reached over SSH.
pub fn is_ssh(workspace: &WorkspaceEnv) -> (res: bool)
    ensures
        res == (workspace is Ssh),
{
    match workspace {
        WorkspaceEnv::Ssh { .. } => true,
        _ => false,
    }
}

/// The remote root directory of an SSH workspace, as given.
pub fn workspace_root(workspace: &WorkspaceEnv) -> (res: Option<&str>)
    ensures
        match workspace {
            WorkspaceEnv::Ssh { root_path, .. } => res matches Some(r) && r@ == root_path@,
            _ => res is None,
        },
{
    match workspace {
        WorkspaceEnv::Ssh { root_path, .. } => Some(root_path.as_str()),
        _ => None,
    }
}

/// The password of an SSH workspace, when one is set and not empty.
pub open spec fn spec_password(workspace: WorkspaceEnv) -> Option<Seq<char>> {
    match workspace {
        WorkspaceEnv::Ssh { password: Some(p), .. } => if p@.len() > 0 {
            Some(p@)
        } else {
            None
        },
        _ => None,
    }
}

/// The password of an SSH workspace, when one is set and not empty.
pub fn ssh_password(workspace: &WorkspaceEnv) -> (res: Option<&str>)
    ensures
        match spec_password(*workspace) {
            Some(p) => res matches Some(r) && r@ == p,
            None => res is None,
        },
{
    match workspace {
        WorkspaceEnv::Ssh { password: Some(p), .. } => {
            if p.as_str().is_empty() {
                None
            } else {
                Some(p.as_str())
            }
        },
        _ => None,
    }
}

} // verus!
