//! Decisions of the developer-tooling commands.
//!
//! The tooling itself only shells out to `git`, `rustup` and `cargo`; the
//! part worth stating is which commands run, in which order, and when the
//! probe for git-lfs counts as found. Each function here turns what was
//! observed into the exact plan of commands to run; the host runs them.

use vstd::prelude::*;

verus! {

/// A host command the tooling asks to have run.
#[derive(Clone, Copy, Debug, PartialEq, Eq, Structural)]
pub enum ToolCommand {
    /// `git lfs install`
    GitLfsInstall,
    /// `git lfs pull`
    GitLfsPull,
    /// `git submodule update`, with or without `--init`
    GitSubmoduleUpdate {
        /// Whether to pass `--init`.
        init: bool,
    },
    /// `rustup update`
    RustupUpdate,
    /// `cargo update`
    CargoUpdate,
}

/// The git-lfs probe did not identify git-lfs on the host.
#[derive(Clone, Copy, Debug, PartialEq, Eq, Structural)]
pub struct GitLfsMissing;

/// What `git lfs version` prints when git-lfs answers: its output starts
/// with the bytes of `git-lfs/`.
pub open spec fn spec_is_lfs_banner(out: Seq<u8>) -> bool {
    out.len() >= 8 && out.subrange(0, 8) == seq![
        103u8,
        105u8,
        116u8,
        45u8,
        108u8,
        102u8,
        115u8,
        47u8,
    ]
}

/// Whether the probe output identifies git-lfs.
fn is_lfs_banner(out: &Vec<u8>) -> (r: bool)
    ensures
        r == spec_is_lfs_banner(out@),
{
    if out.len() < 8 {
        return false;
    }
    let r = out[0] == 103 && out[1] == 105 && out[2] == 116 && out[3] == 45 && out[4] == 108
        && out[5] == 102 && out[6] == 115 && out[7] == 47;
    proof {
        if r {
            assert(out@.subrange(0, 8) =~= seq![103u8, 105u8, 116u8, 45u8, 108u8, 102u8, 115u8, 47u8]);
        } else {
            assert(out@.subrange(0, 8) != seq![103u8, 105u8, 116u8, 45u8, 108u8, 102u8, 115u8, 47u8])
                by {
                let banner = seq![103u8, 105u8, 116u8, 45u8, 108u8, 102u8, 115u8, 47u8];
                if out@.subrange(0, 8) == banner {
                    assert(out@[0] == banner[0]);
                    assert(out@[1] == banner[1]);
                    assert(out@[2] == banner[2]);
                    assert(out@[3] == banner[3]);
                    assert(out@[4] == banner[4]);
                    assert(out@[5] == banner[5]);
                    assert(out@[6] == banner[6]);
                    assert(out@[7] == banner[7]);
                }
            }
        }
    }
    r
}

/// Sets up git-lfs: given the output of the `git lfs version` probe (absent
/// when the probe itself failed to run), either reports that git-lfs is
/// missing, or yields the plan `git lfs install` then `git lfs pull`.
pub fn make_git_lfs(probe: Option<&Vec<u8>>) -> (r: Result<Vec<ToolCommand>, GitLfsMissing>)
    ensures
        match r {
            Ok(cmds) => {
                &&& match probe {
                    Some(out) => spec_is_lfs_banner(out@),
                    None => false,
                }
                &&& cmds@ == seq![ToolCommand::GitLfsInstall, ToolCommand::GitLfsPull]
            },
            Err(e) => {
                &&& match probe {
                    Some(out) => !spec_is_lfs_banner(out@),
                    None => true,
                }
                &&& e == GitLfsMissing
            },
        },
{
    let found = match probe {
        Some(out) => is_lfs_banner(out),
        None => false,
    };
    if !found {
        return Err(GitLfsMissing);
    }
    let mut cmds: Vec<ToolCommand> = Vec::new();
    cmds.push(ToolCommand::GitLfsInstall);
    cmds.push(ToolCommand::GitLfsPull);
    proof {
        assert(cmds@ =~= seq![ToolCommand::GitLfsInstall, ToolCommand::GitLfsPull]);
    }
    Ok(cmds)
}

/// Updates the subprojects: one `git submodule update`, with `--init`
/// exactly when asked to initialize them first.
pub fn git_submodule_update(init: bool) -> (r: Vec<ToolCommand>)
    ensures
        r@ == seq![(ToolCommand::GitSubmoduleUpdate { init })],
{
    let mut cmds: Vec<ToolCommand> = Vec::new();
    cmds.push(ToolCommand::GitSubmoduleUpdate { init });
    proof {
        assert(cmds@ =~= seq![(ToolCommand::GitSubmoduleUpdate { init })]);
    }
    cmds
}

/// Updates the toolchain and dependencies: refresh the subprojects (without
/// initializing), then `rustup update`, then `cargo update`, in that order.
pub fn update_all() -> (r: Vec<ToolCommand>)
    ensures
        r@ == seq![
            (ToolCommand::GitSubmoduleUpdate { init: false }),
            ToolCommand::RustupUpdate,
            ToolCommand::CargoUpdate,
        ],
{
    let mut cmds = git_submodule_update(false);
    cmds.push(ToolCommand::RustupUpdate);
    cmds.push(ToolCommand::CargoUpdate);
    proof {
        assert(cmds@ =~= seq![
            (ToolCommand::GitSubmoduleUpdate { init: false }),
            ToolCommand::RustupUpdate,
            ToolCommand::CargoUpdate,
        ]);
    }
    cmds
}

} // verus!
