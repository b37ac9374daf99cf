//! Selection of stale merge artifacts: delta files the merge absorbed,
//! abandoned temporary merge directories and checkpoint directories beyond
//! the retention count. The process removes what is selected.

use vstd::prelude::*;
use vstd::relations::injective_on;
use vstd::set_lib::{lemma_int_range, lemma_map_size, lemma_subset_equality, set_int_range};

verus! {

/// Cleanup thresholds for merge artifacts.
#[derive(Debug, Clone, PartialEq, Eq)]
pub struct MergeCleanupConfig {
    /// Keep at most this many latest checkpoint directories.
    pub retain_last_checkpoints: usize,
    /// Remove delta files at least this old.
    pub max_delta_age_secs: u64,
    /// Remove temporary merge directories at least this old.
    pub max_temp_age_secs: u64,
    /// Directory that holds the checkpoints.
    pub checkpoints_dir: String,
    /// Directory that holds temporary merge artifacts.
    pub temp_merge_dir: String,
}

impl Default for MergeCleanupConfig {
    /// Keep 3 checkpoints; deltas expire after a day, temporary directories
    /// after an hour; `target/checkpoints` and `target/tmp/merge`.
    fn default() -> (c: Self)
        ensures
            c.retain_last_checkpoints == 3,
            c.max_delta_age_secs == 86400,
            c.max_temp_age_secs == 3600,
            c.checkpoints_dir@ == "target/checkpoints"@,
            c.temp_merge_dir@ == "target/tmp/merge"@,
    {
        MergeCleanupConfig {
            retain_last_checkpoints: 3,
            max_delta_age_secs: 24 * 60 * 60,
            max_temp_age_secs: 60 * 60,
            checkpoints_dir: String::from_str("target/checkpoints"),
            temp_merge_dir: String::from_str("target/tmp/merge"),
        }
    }
}

/// Counts of removed artifacts.
#[derive(Debug, Clone, PartialEq, Eq)]
pub struct CleanupReport {
    pub removed_delta_files: usize,
    pub removed_temp_dirs: usize,
    pub removed_checkpoint_dirs: usize,
}

impl Default for CleanupReport {
    /// Nothing removed.
    fn default() -> (r: Self)
        ensures
            r.removed_delta_files == 0,
            r.removed_temp_dirs == 0,
            r.removed_checkpoint_dirs == 0,
    {
        CleanupReport { removed_delta_files: 0, removed_temp_dirs: 0, removed_checkpoint_dirs: 0 }
    }
}

/// Merge cleanup.
#[derive(Debug, Clone)]
pub struct MergeCleanup {
    pub config: MergeCleanupConfig,
}

/// Age at `now` of something made at `t` (zero when made in the future).
pub open spec fn age(now: u64, t: u64) -> int {
    if now >= t { now - t } else { 0 }
}

/// Delta files old enough to remove: the recorded files of the deltas of
/// `chain` whose age is at least `max_age`, in chain order.
pub open spec fn expired_delta_paths(chain: Seq<crate::state::DeltaInfo>, now: u64, max_age: u64) -> Seq<Seq<char>>
    decreases chain.len(),
{
    if chain.len() == 0 {
        Seq::empty()
    } else {
        let d = chain.last();
        let rest = expired_delta_paths(chain.drop_last(), now, max_age);
        match d.file_path {
            Some(p) => if age(now, d.created_at) >= max_age { rest.push(p@) } else { rest },
            None => rest,
        }
    }
}

/// Entries of `dirs` (name, modification time) whose age is at least
/// `max_age`, in listing order.
pub open spec fn expired_dirs(dirs: Seq<(String, u64)>, now: u64, max_age: u64) -> Seq<Seq<char>>
    decreases dirs.len(),
{
    if dirs.len() == 0 {
        Seq::empty()
    } else {
        let d = dirs.last();
        let rest = expired_dirs(dirs.drop_last(), now, max_age);
        if age(now, d.1) >= max_age { rest.push(d.0@) } else { rest }
    }
}

/// Whether entry `j` of `dirs` comes before entry `i` when ordered by
/// modification time, ties kept in listing order.
pub open spec fn older(dirs: Seq<(String, u64)>, j: int, i: int) -> bool {
    dirs[j].1 < dirs[i].1 || (dirs[j].1 == dirs[i].1 && j < i)
}

/// Number of entries among the first `n` of `dirs` that come before entry `i`.
pub open spec fn rank_below(dirs: Seq<(String, u64)>, i: int, n: int) -> nat
    decreases n,
{
    if n <= 0 {
        0
    } else {
        rank_below(dirs, i, n - 1) + if older(dirs, n - 1, i) { 1nat } else { 0nat }
    }
}

/// Position of entry `i` of `dirs` in modification-time order.
pub open spec fn rank(dirs: Seq<(String, u64)>, i: int) -> nat {
    rank_below(dirs, i, dirs.len() as int)
}

/// Names, in listing order, of the entries among the first `n` whose rank is
/// below `k`.
pub open spec fn oldest_among(dirs: Seq<(String, u64)>, k: nat, n: int) -> Seq<Seq<char>>
    decreases n,
{
    if n <= 0 {
        Seq::empty()
    } else {
        let rest = oldest_among(dirs, k, n - 1);
        if rank(dirs, n - 1) < k { rest.push(dirs[n - 1].0@) } else { rest }
    }
}

/// Checkpoint directories to remove so that the `retain` newest remain:
/// none when there are at most `retain`, else the oldest `len - retain`.
pub open spec fn stale_checkpoints(dirs: Seq<(String, u64)>, retain: usize) -> Seq<Seq<char>> {
    if dirs.len() <= retain {
        Seq::empty()
    } else {
        oldest_among(dirs, (dirs.len() - retain) as nat, dirs.len() as int)
    }
}

impl MergeCleanup {
    pub fn new(config: MergeCleanupConfig) -> (c: Self)
        ensures
            c.config == config,
    {
        MergeCleanup { config }
    }

    /// The delta files to remove at `now`.
    pub fn expired_delta_files(&self, snapshot_state: &crate::state::SnapshotMetaState, now: u64) -> (r: Vec<String>)
        ensures
            r@.map_values(|s: String| s@) == expired_delta_paths(snapshot_state.delta_chain@, now, self.config.max_delta_age_secs),
    {
        let chain = &snapshot_state.delta_chain;
        let mut out: Vec<String> = Vec::new();
        let mut i: usize = 0;
        while i < chain.len()
            invariant
                i <= chain@.len(),
                out@.map_values(|s: String| s@) == expired_delta_paths(chain@.subrange(0, i as int), now, self.config.max_delta_age_secs),
            decreases chain@.len() - i,
        {
            let ghost prev = out@;
            let d = &chain[i];
            proof {
                assert(chain@.subrange(0, i + 1).drop_last() =~= chain@.subrange(0, i as int));
            }
            if let Some(p) = &d.file_path {
                let a = now.saturating_sub(d.created_at);
                if a >= self.config.max_delta_age_secs {
                    out.push(p.clone());
                    proof {
                        assert(out@.map_values(|s: String| s@) =~= prev.map_values(|s: String| s@).push(p@));
                    }
                }
            }
            i = i + 1;
        }
        proof { assert(chain@.subrange(0, chain@.len() as int) =~= chain@); }
        out
    }

    /// The temporary merge directories to remove at `now`, given each
    /// directory's name and modification time.
    pub fn expired_temp_dirs(&self, dirs: &Vec<(String, u64)>, now: u64) -> (r: Vec<String>)
        ensures
            r@.map_values(|s: String| s@) == expired_dirs(dirs@, now, self.config.max_temp_age_secs),
    {
        let mut out: Vec<String> = Vec::new();
        let mut i: usize = 0;
        while i < dirs.len()
            invariant
                i <= dirs@.len(),
                out@.map_values(|s: String| s@) == expired_dirs(dirs@.subrange(0, i as int), now, self.config.max_temp_age_secs),
            decreases dirs@.len() - i,
        {
            let ghost prev = out@;
            proof {
                assert(dirs@.subrange(0, i + 1).drop_last() =~= dirs@.subrange(0, i as int));
            }
            let a = now.saturating_sub(dirs[i].1);
            if a >= self.config.max_temp_age_secs {
                out.push(dirs[i].0.clone());
                proof {
                    assert(out@.map_values(|s: String| s@) =~= prev.map_values(|s: String| s@).push(dirs@[i as int].0@));
                }
            }
            i = i + 1;
        }
        proof { assert(dirs@.subrange(0, dirs@.len() as int) =~= dirs@); }
        out
    }

    /// The checkpoint directories to remove so that the configured number of
    /// newest ones remain, given each directory's name and modification time.
    pub fn stale_checkpoint_dirs(&self, dirs: &Vec<(String, u64)>) -> (r: Vec<String>)
        ensures
            r@.map_values(|s: String| s@) == stale_checkpoints(dirs@, self.config.retain_last_checkpoints),
    {
        let n = dirs.len();
        if n <= self.config.retain_last_checkpoints {
            let out: Vec<String> = Vec::new();
            assert(out@.map_values(|s: String| s@) =~= Seq::<Seq<char>>::empty());
            return out;
        }
        let k = n - self.config.retain_last_checkpoints;
        let mut out: Vec<String> = Vec::new();
        let mut i: usize = 0;
        while i < n
            invariant
                n == dirs@.len(),
                i <= n,
                k == n - self.config.retain_last_checkpoints,
                out@.map_values(|s: String| s@) == oldest_among(dirs@, k as nat, i as int),
            decreases n - i,
        {
            let ghost prev = out@;
            let mut below: usize = 0;
            let mut j: usize = 0;
            while j < n
                invariant
                    n == dirs@.len(),
                    i < n,
                    j <= n,
                    below <= j,
                    below == rank_below(dirs@, i as int, j as int),
                decreases n - j,
            {
                if dirs[j].1 < dirs[i].1 || (dirs[j].1 == dirs[i].1 && j < i) {
                    below = below + 1;
                }
                j = j + 1;
            }
            if below < k {
                out.push(dirs[i].0.clone());
                proof {
                    assert(out@.map_values(|s: String| s@) =~= prev.map_values(|s: String| s@).push(dirs@[i as int].0@));
                }
            }
            i = i + 1;
        }
        out
    }
}

/// Indices among the first `n` of `dirs` whose rank is below `k`.
pub open spec fn low_ranked(dirs: Seq<(String, u64)>, k: nat, n: int) -> Set<int> {
    Set::new(|i: int| 0 <= i < n && rank(dirs, i) < k)
}

/// An entry that comes before another has fewer entries before it.
proof fn lemma_rank_below_mono(dirs: Seq<(String, u64)>, j: int, i: int, m: int)
    requires
        older(dirs, j, i),
    ensures
        rank_below(dirs, j, m) <= rank_below(dirs, i, m),
        0 <= j < m ==> rank_below(dirs, j, m) < rank_below(dirs, i, m),
    decreases m,
{
    if m > 0 {
        lemma_rank_below_mono(dirs, j, i, m - 1);
    }
}

/// Among the first `m` entries, fewer than `m` come before one of them.
proof fn lemma_rank_below_bound(dirs: Seq<(String, u64)>, i: int, m: int)
    ensures
        m >= 0 ==> rank_below(dirs, i, m) <= m,
        0 <= i < m ==> rank_below(dirs, i, m) < m,
    decreases m,
{
    if m > 0 {
        lemma_rank_below_bound(dirs, i, m - 1);
    }
}

/// The names `oldest_among` lists are as many as the indices it selects.
proof fn lemma_oldest_len(dirs: Seq<(String, u64)>, k: nat, n: int)
    requires
        n >= 0,
    ensures
        low_ranked(dirs, k, n).finite(),
        oldest_among(dirs, k, n).len() == low_ranked(dirs, k, n).len(),
    decreases n,
{
    if n == 0 {
        assert(low_ranked(dirs, k, 0) =~= Set::<int>::empty());
    } else {
        lemma_oldest_len(dirs, k, n - 1);
        if rank(dirs, n - 1) < k {
            assert(low_ranked(dirs, k, n) =~= low_ranked(dirs, k, n - 1).insert(n - 1));
        } else {
            assert(low_ranked(dirs, k, n) =~= low_ranked(dirs, k, n - 1));
        }
    }
}

/// Checkpoint cleanup keeps the configured number of newest directories:
/// when there are more than `retain`, exactly `len - retain` are selected
/// for removal, and each selected one is older than each one kept.
pub proof fn law_retains_newest_checkpoints(dirs: Seq<(String, u64)>, retain: usize)
    requires
        dirs.len() > retain,
    ensures
        stale_checkpoints(dirs, retain).len() == dirs.len() - retain,
        forall|i: int, j: int|
            0 <= i < dirs.len() && 0 <= j < dirs.len() && #[trigger] rank(dirs, j) < dirs.len() - retain
                && dirs.len() - retain <= #[trigger] rank(dirs, i) ==> older(dirs, j, i),
{
    let n = dirs.len() as int;
    let k: nat = (n - retain) as nat;
    let f = |i: int| rank(dirs, i) as int;
    let all = set_int_range(0, n);
    assert forall|a: int, b: int| 0 <= a < n && 0 <= b < n && a != b implies rank(dirs, a) != rank(dirs, b) by {
        if older(dirs, a, b) {
            lemma_rank_below_mono(dirs, a, b, n);
        } else {
            lemma_rank_below_mono(dirs, b, a, n);
        }
    }
    lemma_int_range(0, n);
    assert(injective_on(f, all));
    lemma_map_size(all, all.map(f), f);
    assert forall|r: int| all.map(f).contains(r) implies set_int_range(0, n).contains(r) by {
        let i = choose|i: int| all.contains(i) && r == f(i);
        lemma_rank_below_bound(dirs, i, n);
    }
    lemma_subset_equality(all.map(f), set_int_range(0, n));
    let low = low_ranked(dirs, k, n);
    lemma_oldest_len(dirs, k, n);
    assert forall|r: int| low.map(f).contains(r) implies set_int_range(0, k as int).contains(r) by {
        let i = choose|i: int| low.contains(i) && r == f(i);
    }
    assert forall|r: int| set_int_range(0, k as int).contains(r) implies low.map(f).contains(r) by {
        assert(set_int_range(0, n).contains(r));
        assert(all.map(f).contains(r));
        let i = choose|i: int| all.contains(i) && r == f(i);
        assert(low.contains(i));
    }
    assert(low.map(f) =~= set_int_range(0, k as int));
    assert(injective_on(f, low));
    lemma_map_size(low, low.map(f), f);
    lemma_int_range(0, k as int);
    assert forall|i: int, j: int|
        0 <= i < n && 0 <= j < n && #[trigger] rank(dirs, j) < k && k <= #[trigger] rank(dirs, i) implies older(dirs, j, i) by {
        if !older(dirs, j, i) {
            lemma_rank_below_mono(dirs, i, j, n);
        }
    }
}

/// One more temporary directory is selected exactly when it is at least the
/// age limit old at `now` (age zero for a time in the future); the others
/// keep their selection.
pub proof fn law_temp_dir_selection(dirs: Seq<(String, u64)>, d: (String, u64), now: u64, max_age: u64)
    ensures
        expired_dirs(dirs.push(d), now, max_age) == expired_dirs(dirs, now, max_age) + (if (if now >= d.1 {
            now - d.1
        } else {
            0
        }) >= max_age {
            seq![d.0@]
        } else {
            Seq::<Seq<char>>::empty()
        }),
{
    assert(dirs.push(d).drop_last() =~= dirs);
    assert(expired_dirs(dirs, now, max_age).push(d.0@) =~= expired_dirs(dirs, now, max_age) + seq![d.0@]);
    assert(expired_dirs(dirs, now, max_age) + Seq::<Seq<char>>::empty() =~= expired_dirs(dirs, now, max_age));
}

/// Waiting longer never selects fewer temporary directories.
pub proof fn law_temp_dir_selection_monotone(dirs: Seq<(String, u64)>, now: u64, later: u64, max_age: u64)
    requires
        now <= later,
    ensures
        expired_dirs(dirs, now, max_age).len() <= expired_dirs(dirs, later, max_age).len(),
    decreases dirs.len(),
{
    if dirs.len() > 0 {
        law_temp_dir_selection_monotone(dirs.drop_last(), now, later, max_age);
    }
}

/// One more delta is selected for removal exactly when it has a recorded
/// file and is at least the age limit old at `now` (age zero for a time in
/// the future); the earlier deltas keep their selection.
pub proof fn law_delta_file_selection(chain: Seq<crate::state::DeltaInfo>, d: crate::state::DeltaInfo, now: u64, max_age: u64)
    ensures
        expired_delta_paths(chain.push(d), now, max_age) == expired_delta_paths(chain, now, max_age) + (match d.file_path {
            Some(p) => if (if now >= d.created_at { now - d.created_at } else { 0 }) >= max_age {
                seq![p@]
            } else {
                Seq::<Seq<char>>::empty()
            },
            None => Seq::<Seq<char>>::empty(),
        }),
{
    assert(chain.push(d).drop_last() =~= chain);
    let rest = expired_delta_paths(chain, now, max_age);
    assert(rest + Seq::<Seq<char>>::empty() =~= rest);
    if let Some(p) = d.file_path {
        assert(rest.push(p@) =~= rest + seq![p@]);
    }
}

} // verus!
