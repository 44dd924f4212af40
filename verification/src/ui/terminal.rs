//! The rows of the summary table that a scan prints.
use vstd::prelude::*;

use crate::sweep_core::traits::DiscoveredProject;
use crate::sweep_core::traits::GitInfo;
use crate::sweep_core::traits::GitStatus;
use crate::text::cuttable;
use crate::text::owned;
use crate::text::shorten_front;
use crate::text::is_shortened;

verus! {

/// The colour class of a status cell.
#[derive(Debug, Clone, Copy, PartialEq, Eq, Structural)]
pub enum StatusTone {
    /// Uncommitted changes: red and bold.
    Dirty,
    /// Stale: green and bold, the safest to clean.
    Stale,
    /// Active: yellow.
    Active,
    /// Moderate: cyan.
    Moderate,
    /// Unknown or no repository: dimmed.
    Muted,
}

/// The tone of a project's status cell.
pub open spec fn status_tone(git_info: Option<GitInfo>) -> StatusTone {
    match git_info {
        Some(info) => if info.is_dirty {
            StatusTone::Dirty
        } else {
            match info.status {
                GitStatus::Stale => StatusTone::Stale,
                GitStatus::Active => StatusTone::Active,
                GitStatus::Moderate => StatusTone::Moderate,
                GitStatus::Unknown => StatusTone::Muted,
            }
        },
        None => StatusTone::Muted,
    }
}

/// The commit-age cell of a project.
pub open spec fn commit_cell(git_info: Option<GitInfo>) -> Seq<char> {
    match git_info {
        Some(info) => info.last_commit_text(),
        None => "N/A"@,
    }
}

/// The status cell of a project.
pub open spec fn status_cell(git_info: Option<GitInfo>) -> Seq<char> {
    match git_info {
        Some(info) => info.status_text(),
        None => "No Git"@,
    }
}

/// The cells of one project in the summary table (sizes as numbers).
#[derive(Debug)]
pub struct ProjectRow {
    pub path: String,
    pub project_type: String,
    pub last_commit: String,
    pub status: String,
    pub tone: StatusTone,
    pub reclaimable_bytes: u64,
}

/// The tone of a project's status cell.
pub fn tone_of(git_info: &Option<GitInfo>) -> (r: StatusTone)
    ensures
        r == status_tone(*git_info),
{
    match git_info {
        Some(info) => if info.is_dirty {
            StatusTone::Dirty
        } else {
            match info.status {
                GitStatus::Stale => StatusTone::Stale,
                GitStatus::Active => StatusTone::Active,
                GitStatus::Moderate => StatusTone::Moderate,
                GitStatus::Unknown => StatusTone::Muted,
            }
        },
        None => StatusTone::Muted,
    }
}

/// The row of `project`: its path cut to its last 33 bytes behind `...`
/// when longer than 36 bytes, its ecosystem, commit age, status and size.
pub fn project_row(project: &DiscoveredProject) -> (r: ProjectRow)
    requires
        cuttable(project.root@, 36, 33),
        project.reclaimable() <= u64::MAX,
    ensures
        is_shortened(r.path@, project.root@, 36, 33),
        r.project_type@ == project.project_type.label(),
        r.last_commit@ == commit_cell(project.git_info),
        r.status@ == status_cell(project.git_info),
        r.tone == status_tone(project.git_info),
        r.reclaimable_bytes == project.reclaimable(),
{
    let path = shorten_front(project.root.as_str(), 36, 33);
    let last_commit = match &project.git_info {
        Some(info) => info.display_last_commit(),
        None => owned("N/A"),
    };
    let status = match &project.git_info {
        Some(info) => info.display_status(),
        None => owned("No Git"),
    };
    ProjectRow {
        path,
        project_type: project.project_type.display_name(),
        last_commit,
        status,
        tone: tone_of(&project.git_info),
        reclaimable_bytes: project.total_reclaimable_bytes(),
    }
}

} // verus!
