//! Export job states, priorities and statistics.
use std::time::Duration;
use vstd::prelude::*;

verus! {

/// Where an export job stands.
#[derive(Debug, Clone, Copy, PartialEq, Eq, Structural)]
pub enum JobStatus {
    Queued,
    Preparing,
    Rendering,
    Encoding,
    Finalizing,
    Completed,
    Failed,
    Cancelled,
}

impl JobStatus {
    pub open spec fn active(&self) -> bool {
        *self == JobStatus::Preparing || *self == JobStatus::Rendering || *self
            == JobStatus::Encoding || *self == JobStatus::Finalizing
    }

    pub open spec fn terminal(&self) -> bool {
        *self == JobStatus::Completed || *self == JobStatus::Failed || *self == JobStatus::Cancelled
    }

    /// Whether the job is being worked on: preparing, rendering, encoding or
    /// finalizing.
    pub fn is_active(&self) -> (r: bool)
        ensures
            r == self.active(),
    {
        match self {
            JobStatus::Preparing | JobStatus::Rendering | JobStatus::Encoding
            | JobStatus::Finalizing => true,
            _ => false,
        }
    }

    /// Whether the job is over: completed, failed or cancelled.
    pub fn is_terminal(&self) -> (r: bool)
        ensures
            r == self.terminal(),
    {
        match self {
            JobStatus::Completed | JobStatus::Failed | JobStatus::Cancelled => true,
            _ => false,
        }
    }
}

/// Priority of an export job, lowest first.
#[derive(Debug, Clone, Copy, PartialEq, Eq, PartialOrd, Ord, Structural)]
pub enum JobPriority {
    Low,
    Normal,
    High,
    Critical,
}

/// Counts of jobs by state.
#[derive(Debug, Clone, Copy)]
pub struct JobStatistics {
    pub total_jobs: usize,
    pub queued_jobs: usize,
    pub active_jobs: usize,
    pub completed_jobs: usize,
    pub failed_jobs: usize,
    pub cancelled_jobs: usize,
    pub average_duration: Option<Duration>,
}

} // verus!
