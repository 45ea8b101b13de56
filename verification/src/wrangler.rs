//! The deploy-tool invocation: its arguments, its time budget, the
//! classification of its exit, and the cleanup rules for the scratch root
//! it litters.
//!
//! The child process itself, the draining of its output streams and the
//! file removals run in the surrounding process.

use vstd::prelude::*;
use crate::errors::ProcessFileError;
use crate::strutil::{bytes_end_with, bytes_start_with, is_prefix_of, is_suffix_of};

verus! {

/// The scratch root the deploy tool works under.
pub fn wrangler_root() -> (r: &'static str)
    ensures
        r@ == "/tmp/wrangler_root"@,
{
    "/tmp/wrangler_root"
}

/// The writable cache directory that must exist before the first
/// invocation; creating it is guarded one-time work of the surrounding
/// process.
pub fn wrangler_cache_dir() -> (r: &'static str)
    ensures
        r@ == "/tmp/wrangler_root/node_modules"@,
{
    "/tmp/wrangler_root/node_modules"
}

/// Time budget of an edge-function deploy, in seconds: twenty minutes.
pub const WRANGLER_TIMEOUT_SECS: u64 = 60 * 20;

/// Time budget of a static-site deploy, in seconds: sixty minutes.
pub const WRANGLER_STATIC_TIMEOUT_SECS: u64 = 60 * 60;

/// The total time budget of one invocation, by variant.
pub fn deploy_timeout_secs(is_static: bool) -> (r: u64)
    ensures
        r == if is_static {
            WRANGLER_STATIC_TIMEOUT_SECS
        } else {
            WRANGLER_TIMEOUT_SECS
        },
{
    if is_static {
        WRANGLER_STATIC_TIMEOUT_SECS
    } else {
        WRANGLER_TIMEOUT_SECS
    }
}

/// The argument list of one invocation:
/// `pages deploy --project-name <pageId> --branch <clientId> <deployPath>`.
pub fn build_deploy_args(page_id: &str, client_id: &str, deploy_path: &str) -> (args: Vec<String>)
    ensures
        args@.len() == 7,
        args@[0]@ == "pages"@,
        args@[1]@ == "deploy"@,
        args@[2]@ == "--project-name"@,
        args@[3]@ == page_id@,
        args@[4]@ == "--branch"@,
        args@[5]@ == client_id@,
        args@[6]@ == deploy_path@,
{
    let mut args: Vec<String> = Vec::new();
    args.push("pages".to_owned());
    args.push("deploy".to_owned());
    args.push("--project-name".to_owned());
    args.push(page_id.to_owned());
    args.push("--branch".to_owned());
    args.push(client_id.to_owned());
    args.push(deploy_path.to_owned());
    args
}

/// How waiting for the child ended.
#[derive(Debug)]
pub enum DeployWait {
    /// The time budget ran out before the child exited.
    TimedOut,
    /// The child exited; `success` is its status's verdict, `code` the
    /// exact exit code where the system reports one.
    Exited { success: bool, code: Option<i32> },
}

/// The classification of one invocation: success on exit code zero,
/// failure carrying the exact code otherwise, and a distinct timeout kind.
pub open spec fn deploy_decision(wait: DeployWait) -> Result<(), ProcessFileError> {
    match wait {
        DeployWait::TimedOut => Err(ProcessFileError::WranglerTimeout),
        DeployWait::Exited { success, code } => if success {
            Ok(())
        } else {
            Err(ProcessFileError::DeployFail(code))
        },
    }
}

/// Classify how one invocation ended.
pub fn classify_deploy_wait(wait: DeployWait) -> (r: Result<(), ProcessFileError>)
    ensures
        r == deploy_decision(wait),
{
    match wait {
        DeployWait::TimedOut => Err(ProcessFileError::WranglerTimeout),
        DeployWait::Exited { success, code } => {
            if success {
                Ok(())
            } else {
                Err(ProcessFileError::DeployFail(code))
            }
        },
    }
}

pub open spec fn mjs_suffix() -> Seq<u8> {
    seq!['.' as u8, 'm' as u8, 'j' as u8, 's' as u8]
}

pub open spec fn map_suffix() -> Seq<u8> {
    seq!['.' as u8, 'm' as u8, 'a' as u8, 'p' as u8]
}

pub open spec fn tmp_prefix() -> Seq<u8> {
    seq!['t' as u8, 'm' as u8, 'p' as u8, '-' as u8]
}

/// What the best-effort cleanup pass does with one directory entry.
#[derive(Debug, PartialEq, Eq, Copy, Clone, Structural)]
pub enum CleanupAction {
    /// A module or source-map leftover: remove the file.
    RemoveFile,
    /// A temporary directory of the tool: remove it, non-recursively.
    RemoveDir,
    /// Anything else stays.
    Keep,
}

/// The cleanup rule: files ending `.mjs` or `.map` go; directories whose
/// name starts `tmp-` go; everything else stays.
pub open spec fn cleanup_decision(name: Seq<u8>, is_dir: bool) -> CleanupAction {
    if is_suffix_of(mjs_suffix(), name) || is_suffix_of(map_suffix(), name) {
        CleanupAction::RemoveFile
    } else if is_prefix_of(tmp_prefix(), name) && is_dir {
        CleanupAction::RemoveDir
    } else {
        CleanupAction::Keep
    }
}

/// Decide what the cleanup pass does with one directory entry.
pub fn cleanup_action(name: &[u8], is_dir: bool) -> (r: CleanupAction)
    ensures
        r == cleanup_decision(name@, is_dir),
{
    let mjs: Vec<u8> = vec!['.' as u8, 'm' as u8, 'j' as u8, 's' as u8];
    let map: Vec<u8> = vec!['.' as u8, 'm' as u8, 'a' as u8, 'p' as u8];
    let tmp: Vec<u8> = vec!['t' as u8, 'm' as u8, 'p' as u8, '-' as u8];
    proof {
        assert(mjs@ =~= mjs_suffix());
        assert(map@ =~= map_suffix());
        assert(tmp@ =~= tmp_prefix());
    }
    if bytes_end_with(name, mjs.as_slice()) || bytes_end_with(name, map.as_slice()) {
        CleanupAction::RemoveFile
    } else if bytes_start_with(name, tmp.as_slice()) && is_dir {
        CleanupAction::RemoveDir
    } else {
        CleanupAction::Keep
    }
}

} // verus!
