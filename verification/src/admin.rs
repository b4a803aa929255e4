//! Shared vocabulary of the model administration service: lifecycle
//! states of models, pipelines, and jobs, and the alerting taxonomy.

use vstd::prelude::*;

verus! {

/// Lifecycle state of a deployed model.
#[derive(Clone, Copy, Debug, PartialEq, Eq, Structural)]
pub enum ModelStatus {
    Training,
    Validating,
    Deployed,
    Deprecated,
    Failed,
    Maintenance,
}

/// Kind of one stage of a processing pipeline.
#[derive(Clone, Copy, Debug, PartialEq, Eq, Structural)]
pub enum StageType {
    DataIngestion,
    DataPreprocessing,
    FeatureExtraction,
    ModelTraining,
    ModelValidation,
    ModelDeployment,
    PostProcessing,
}

/// Lifecycle state of a processing pipeline.
#[derive(Clone, Copy, Debug, PartialEq, Eq, Structural)]
pub enum PipelineStatus {
    Idle,
    Running,
    Completed,
    Failed,
    Cancelled,
    Scheduled,
}

/// Lifecycle state of a training job.
#[derive(Clone, Copy, Debug, PartialEq, Eq, Structural)]
pub enum JobStatus {
    Queued,
    Running,
    Completed,
    Failed,
    Cancelled,
}

/// Coarse health of a subsystem.
#[derive(Clone, Copy, Debug, PartialEq, Eq, Structural)]
pub enum HealthStatus {
    Healthy,
    Warning,
    Critical,
    Degraded,
}

/// Kind of a raised system alert.
#[derive(Clone, Copy, Debug, PartialEq, Eq, Structural)]
pub enum AlertType {
    ModelPerformance,
    InfrastructureIssue,
    DataQuality,
    SecurityConcern,
    SystemError,
}

/// Severity of a raised system alert.
#[derive(Clone, Copy, Debug, PartialEq, Eq, Structural)]
pub enum AlertSeverity {
    Info,
    Warning,
    Error,
    Critical,
}

/// Handling state of a raised system alert.
#[derive(Clone, Copy, Debug, PartialEq, Eq, Structural)]
pub enum AlertStatus {
    Active,
    Acknowledged,
    Resolved,
    Suppressed,
}

} // verus!
