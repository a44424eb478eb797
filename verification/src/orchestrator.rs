//! The download orchestrator: plans one job per listed asset and aggregates
//! the outcomes of a run.
//!
//! Concurrency is fire-all, then join-all: every task is started before any
//! is awaited, with no cap, no ordering between tasks, and no cancellation.
//! The runner outside the library spawns one task per planned job and feeds
//! each task's state machine; the planning and the failure policy live here.
use vstd::prelude::*;

use crate::error::MirrorError;
use crate::resolver::{resolve_asset_url, spec_resolve_asset_url, EndpointConfig};
use crate::task::TaskOutcome;
use crate::text::ends_with_char;

verus! {

/// One asset's download order: its place in the run, the URL to fetch, and
/// the file to write. Owned by its task alone until completion.
#[derive(Clone, Debug)]
pub struct DownloadJob {
    /// This job's position in the listing, counted from zero.
    pub index: usize,
    /// How many jobs the run has in all.
    pub total: usize,
    /// The fully proxied URL to fetch.
    pub url: String,
    /// The destination path: the asset's name under the target directory.
    pub destination: String,
}

/// The destination path of an asset: its name under the target directory.
pub open spec fn spec_dest_path(dir: Seq<char>, asset: Seq<char>) -> Seq<char> {
    if ends_with_char(dir, '/') {
        dir + asset
    } else {
        dir + "/"@ + asset
    }
}

/// Join an asset name onto the target directory.
pub fn dest_path(dir: &str, asset: &str) -> (r: String)
    ensures
        r@ == spec_dest_path(dir@, asset@),
{
    let mut r = String::from_str(dir);
    if !crate::text::str_ends_with_char(dir, '/') {
        r.append("/");
    }
    r.append(asset);
    r
}

/// Plan the run: one job per asset, in listing order. Job `i` carries index
/// `i`, the total count, the asset's resolved fetch URL, and the asset's
/// destination path under `dest_dir`.
pub fn build_jobs(
    cfg: &EndpointConfig,
    assets: &Vec<String>,
    dest_dir: &str,
) -> (r: Vec<DownloadJob>)
    ensures
        r@.len() == assets@.len(),
        forall|i: int|
            0 <= i < assets@.len() ==> {
                &&& (#[trigger] r@[i]).index == i
                &&& r@[i].total == assets@.len()
                &&& r@[i].url@ == spec_resolve_asset_url(
                    cfg.proxy_url@,
                    cfg.repo_path@,
                    assets@[i]@,
                )
                &&& r@[i].destination@ == spec_dest_path(dest_dir@, assets@[i]@)
            },
{
    let total: usize = assets.len();
    let mut jobs: Vec<DownloadJob> = Vec::new();
    let mut i: usize = 0;
    while i < total
        invariant
            i <= total,
            total == assets@.len(),
            jobs@.len() == i,
            forall|k: int|
                0 <= k < i ==> {
                    &&& (#[trigger] jobs@[k]).index == k
                    &&& jobs@[k].total == assets@.len()
                    &&& jobs@[k].url@ == spec_resolve_asset_url(
                        cfg.proxy_url@,
                        cfg.repo_path@,
                        assets@[k]@,
                    )
                    &&& jobs@[k].destination@ == spec_dest_path(dest_dir@, assets@[k]@)
                },
        decreases total - i,
    {
        let url = resolve_asset_url(cfg, assets[i].as_str());
        let destination = dest_path(dest_dir, assets[i].as_str());
        jobs.push(DownloadJob { index: i, total, url, destination });
        i = i + 1;
    }
    jobs
}

/// Distinct asset names give distinct destination paths under one target
/// directory, so no two jobs ever write to the same file.
pub proof fn lemma_destinations_unique(dir: Seq<char>, a: Seq<char>, b: Seq<char>)
    requires
        a != b,
    ensures
        spec_dest_path(dir, a) != spec_dest_path(dir, b),
{
    let p = if ends_with_char(dir, '/') {
        dir
    } else {
        dir + "/"@
    };
    assert(spec_dest_path(dir, a) == p + a);
    assert(spec_dest_path(dir, b) == p + b);
    if p + a == p + b {
        assert(a =~= b) by {
            assert(a.len() == b.len());
            assert forall|i: int| 0 <= i < a.len() implies a[i] == b[i] by {
                assert((p + a)[p.len() + i] == a[i]);
                assert((p + b)[p.len() + i] == b[i]);
            }
        }
    }
}

/// Whether any task of the run failed.
pub open spec fn spec_any_failed(outcomes: Seq<TaskOutcome>) -> bool {
    exists|i: int| 0 <= i < outcomes.len() && outcomes[i] is Failed
}

/// The verdict of a whole run, judged only after every task has reached a
/// terminal state: a single failed task makes the run fail, while skipped
/// assets count as successes; completed siblings of a failed task are kept
/// on disk, never rolled back.
pub fn collect_outcomes(outcomes: &Vec<TaskOutcome>) -> (r: Result<(), MirrorError>)
    ensures
        r is Ok <==> !spec_any_failed(outcomes@),
        r is Err ==> r == Err::<(), MirrorError>(MirrorError::TransferError),
{
    let n: usize = outcomes.len();
    let mut i: usize = 0;
    while i < n
        invariant
            i <= n,
            n == outcomes@.len(),
            forall|k: int| 0 <= k < i ==> !(outcomes@[k] is Failed),
        decreases n - i,
    {
        if matches!(outcomes[i], TaskOutcome::Failed) {
            return Err(MirrorError::TransferError);
        }
        i = i + 1;
    }
    Ok(())
}

} // verus!
