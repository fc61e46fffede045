//! Filesystem work that the cache asks its caller to carry out.

use crate::resolution::{DirectRes, ResView};
use vstd::prelude::*;

verus! {

/// Mathematical value of an [`FsStep`].
pub enum StepView {
    CreateDirAll { path: Seq<char> },
    ClearDir { path: Seq<char> },
    CopyDir { from: Seq<char>, to: Seq<char> },
    Retrieve { res: ResView, dest: Seq<char> },
    WriteFile { path: Seq<char>, contents: Seq<char> },
}

/// One piece of work on the filesystem. The steps of a plan are carried
/// out in order, and the first failure ends the plan.
#[derive(Debug)]
pub enum FsStep {
    /// Create the directory and its missing parents; fine if it exists.
    CreateDirAll { path: String },
    /// Remove everything inside the directory, keeping the directory.
    ClearDir { path: String },
    /// Copy the contents of one directory into another, recursively.
    CopyDir { from: String, to: String },
    /// Fetch a resolution into a claimed directory.
    Retrieve { res: DirectRes, dest: String },
    /// Write a text file, replacing what is there.
    WriteFile { path: String, contents: String },
}

impl View for FsStep {
    type V = StepView;

    open spec fn view(&self) -> StepView {
        match self {
            FsStep::CreateDirAll { path } => StepView::CreateDirAll { path: path@ },
            FsStep::ClearDir { path } => StepView::ClearDir { path: path@ },
            FsStep::CopyDir { from, to } => StepView::CopyDir { from: from@, to: to@ },
            FsStep::Retrieve { res, dest } => StepView::Retrieve { res: res@, dest: dest@ },
            FsStep::WriteFile { path, contents } => StepView::WriteFile {
                path: path@,
                contents: contents@,
            },
        }
    }
}

/// The values of the steps of a plan, in order.
pub open spec fn step_views(plan: Seq<FsStep>) -> Seq<StepView> {
    plan.map_values(|s: FsStep| s@)
}

} // verus!
