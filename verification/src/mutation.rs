//! Resumable mutation testing orchestration.

pub mod config;
pub mod engine;
pub mod events;
pub mod report;
pub mod runner;
pub mod state;
pub mod text;

pub use config::MutationConfig;
pub use engine::{CargoMutantsEngine, MutationEngine};
pub use events::{
    MutantSpec, MutationOutcome, MutationType, RunConfigSnapshot, RunMetadata, TestFailure,
    parse_mutation_type, truncate_preview,
};
pub use report::{MutantReport, ReportFormat, RunSummary};
pub use runner::{RunResult, plan_rerun_survivors, plan_resume};
pub use state::{MutationStatus, RunInfo, RunSnapshot};
