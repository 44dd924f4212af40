//! The options of the command line.
use vstd::prelude::*;

use crate::text::owned;

verus! {

/// The options of a run.
#[derive(Debug, Clone)]
pub struct Args {
    /// The directory to scan.
    pub path: String,
    /// Report what would be cleaned without touching anything.
    pub dry_run: bool,
    /// Keep only projects whose last commit is at least this many days old.
    pub stale: Option<u64>,
    /// The ecosystem to look for, or "all".
    pub project_type: String,
    pub force: bool,
    /// Open the interactive dashboard.
    pub tui: bool,
    pub verbose: bool,
}

impl Default for Args {
    /// The options of a run given no flags: the current directory, every
    /// ecosystem, no age filter, and every switch off.
    fn default() -> (r: Self)
        ensures
            r.path@ == "."@,
            !r.dry_run,
            r.stale is None,
            r.project_type@ == "all"@,
            !r.force,
            !r.tui,
            !r.verbose,
    {
        Args {
            path: owned("."),
            dry_run: false,
            stale: None,
            project_type: owned("all"),
            force: false,
            tui: false,
            verbose: false,
        }
    }
}

/// What a run does once the workspace is scanned.
#[derive(Debug, Clone, Copy, PartialEq, Eq, Structural)]
pub enum RunMode {
    /// Open the interactive dashboard on the projects found.
    Dashboard,
    /// Print the summary and stop: nothing was found, or it is a dry run.
    Report,
    /// Print the summary and ask which artifacts to clean.
    Select,
    /// Print the summary and clean every artifact found without asking.
    CleanAll,
}

/// The mode of a run with the options `args` that found projects
/// (`found_any`) or none: `--tui` opens the dashboard; otherwise nothing is
/// cleaned when nothing was found or in a dry run; `--force` cleans without
/// asking, and a plain run asks.
pub open spec fn spec_run_mode(args: Args, found_any: bool) -> RunMode {
    if args.tui {
        RunMode::Dashboard
    } else if !found_any || args.dry_run {
        RunMode::Report
    } else if args.force {
        RunMode::CleanAll
    } else {
        RunMode::Select
    }
}

impl Args {
    /// The mode of the run (see `spec_run_mode`).
    pub fn run_mode(&self, found_any: bool) -> (r: RunMode)
        ensures
            r == spec_run_mode(*self, found_any),
    {
        if self.tui {
            RunMode::Dashboard
        } else if !found_any || self.dry_run {
            RunMode::Report
        } else if self.force {
            RunMode::CleanAll
        } else {
            RunMode::Select
        }
    }
}

/// A dry run never cleans anything outside the dashboard, and neither does
/// a run that found nothing.
pub proof fn lemma_dry_run_cleans_nothing(args: Args, found_any: bool)
    requires
        args.dry_run || !found_any,
    ensures
        spec_run_mode(args, found_any) == RunMode::Dashboard || spec_run_mode(args, found_any)
            == RunMode::Report,
{
}

} // verus!
