//! Turning what a repository reports into a project's git status.
use vstd::prelude::*;

use crate::sweep_core::traits::GitInfo;
use crate::sweep_core::traits::GitStatus;

verus! {

/// Seconds in a day.
pub const SECONDS_PER_DAY: i64 = 86400;

/// What a repository reports: whether the work tree has changes (untracked
/// files included), and the commit time of `HEAD` in Unix seconds, where
/// `HEAD` resolves to a commit.
#[derive(Debug, Clone, Copy, PartialEq, Eq, Structural)]
pub struct RepoState {
    pub is_dirty: bool,
    pub head_commit_time: Option<i64>,
}

/// Whole days from `commit_time` to `now`; none for a commit in the future.
pub open spec fn days_between(commit_time: int, now: int) -> nat {
    if now > commit_time {
        ((now - commit_time) / 86400) as nat
    } else {
        0
    }
}

/// The status of a repository whose last commit is `days` old: stale after
/// thirty days, active when younger than a week, moderate in between.
pub open spec fn status_for_age(days: nat) -> GitStatus {
    if days > 30 {
        GitStatus::Stale
    } else if days < 7 {
        GitStatus::Active
    } else {
        GitStatus::Moderate
    }
}

/// The git information of a project in the repository `repo` (none when the
/// project is in no repository), judged at the Unix time `now`.
pub open spec fn spec_git_info(repo: Option<RepoState>, now: int) -> Option<GitInfo> {
    match repo {
        None => None,
        Some(s) => match s.head_commit_time {
            None => Some(GitInfo { last_commit_days: None, is_dirty: s.is_dirty, status: GitStatus::Unknown }),
            Some(t) => {
                let days = days_between(t as int, now);
                Some(GitInfo { last_commit_days: Some(days as u64), is_dirty: s.is_dirty, status: status_for_age(days) })
            },
        },
    }
}

/// A repository that is stale at some age stays stale as it grows older,
/// and one that is active was active at every younger age.
pub proof fn lemma_staleness_monotone(younger: nat, older: nat)
    requires
        younger <= older,
    ensures
        status_for_age(younger) == GitStatus::Stale ==> status_for_age(older) == GitStatus::Stale,
        status_for_age(older) == GitStatus::Active ==> status_for_age(younger) == GitStatus::Active,
{
}

/// A repository with a commit is never of unknown status, and one without
/// a commit always is.
pub proof fn lemma_unknown_iff_no_commit(repo: RepoState, now: int)
    ensures
        (spec_git_info(Some(repo), now)->0.status == GitStatus::Unknown) == (repo.head_commit_time is None),
        (spec_git_info(Some(repo), now)->0.last_commit_days is None) == (repo.head_commit_time is None),
{
}

/// What a repository's git information says, in terms of its inputs: none
/// outside a repository; inside one, the work tree's dirtiness as the
/// repository reports it; without a commit no age and the status Unknown;
/// with a commit at `t`, the whole days from `t` to `now` (none for a
/// commit in the future), and the status Stale beyond thirty days, Active
/// under seven, Moderate from seven to thirty.
pub proof fn lemma_git_info_meaning(repo: Option<RepoState>, now: i64)
    requires
        repo matches Some(s) ==> (s.head_commit_time matches Some(t) ==> now - t <= i64::MAX),
    ensures
        repo is None ==> spec_git_info(repo, now as int) is None,
        repo matches Some(s) ==> (spec_git_info(repo, now as int) matches Some(i) && i.is_dirty == s.is_dirty),
        repo matches Some(s) ==> (s.head_commit_time is None ==> (spec_git_info(repo, now as int) matches Some(i)
            && i.last_commit_days is None && i.status == GitStatus::Unknown)),
        repo matches Some(s) ==> (s.head_commit_time matches Some(t) ==> (spec_git_info(repo, now as int) matches Some(
            i,
        ) && (i.last_commit_days matches Some(d) && (now <= t ==> d == 0) && (now > t ==> (d * 86400 <= now
            - t && now - t < d * 86400 + 86400)) && (i.status == GitStatus::Stale <==> d > 30) && (i.status
            == GitStatus::Active <==> d < 7) && (i.status == GitStatus::Moderate <==> (7 <= d && d <= 30))))),
{
    if let Some(s) = repo {
        if let Some(t) = s.head_commit_time {
            if now > t {
                let diff: int = now - t;
                let d: int = diff / 86400;
                assert(0 <= d && d * 86400 <= diff && diff < d * 86400 + 86400) by (nonlinear_arith)
                    requires
                        diff > 0,
                        d == diff / 86400,
                ;
                assert(d <= u64::MAX) by (nonlinear_arith)
                    requires
                        diff <= i64::MAX,
                        d == diff / 86400,
                        diff > 0,
                ;
            }
        }
    }
}

/// Reads the git lifecycle of projects.
#[derive(Debug, Clone, Copy)]
pub struct GitAnalyzer;

impl GitAnalyzer {
    /// The git information of a project whose repository reports `repo`,
    /// at the Unix time `now`.
    pub fn analyze(repo: Option<RepoState>, now: i64) -> (r: Option<GitInfo>)
        requires
            repo matches Some(s) ==> (s.head_commit_time matches Some(t) ==> now - t <= i64::MAX),
        ensures
            r == spec_git_info(repo, now as int),
            repo is None ==> r is None,
            repo matches Some(s) ==> (r matches Some(i) && i.is_dirty == s.is_dirty),
    {
        match repo {
            None => None,
            Some(s) => match s.head_commit_time {
                None => Some(GitInfo { last_commit_days: None, is_dirty: s.is_dirty, status: GitStatus::Unknown }),
                Some(t) => {
                    let days: u64 = if now > t {
                        ((now - t) / SECONDS_PER_DAY) as u64
                    } else {
                        0
                    };
                    let status = if days > 30 {
                        GitStatus::Stale
                    } else if days < 7 {
                        GitStatus::Active
                    } else {
                        GitStatus::Moderate
                    };
                    Some(GitInfo { last_commit_days: Some(days), is_dirty: s.is_dirty, status })
                },
            },
        }
    }
}

} // verus!
