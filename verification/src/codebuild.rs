//! CodeBuild runs as the viewer knows them.

use vstd::prelude::*;

verus! {

/// How a build stands.
#[derive(Debug, Clone, Copy, PartialEq, Eq, Structural)]
pub enum BuildStatus {
    Succeeded,
    Failed,
    Fault,
    TimedOut,
    InProgress,
    Stopped,
    /// Any other state that CodeBuild reports.
    Other,
}

/// One run of a project.
#[derive(Debug, Clone)]
pub struct CodeBuildRecord {
    pub build_number: i64,
    pub status: BuildStatus,
    /// The mark shown before the status.
    pub status_glyph: String,
    /// The status in words.
    pub status_label: String,
    /// Start, in milliseconds since 1970-01-01 00:00 UTC.
    pub started_at_ms: Option<i64>,
    pub duration_ms: Option<i64>,
    pub initiator: Option<String>,
    pub source_version: Option<String>,
    /// Address of the run's log in the AWS console.
    pub logs_deep_link: Option<String>,
}

/// What a `CodeBuildRecord` holds.
#[verifier::ext_equal]
pub struct CodeBuildRecordV {
    pub build_number: i64,
    pub status: BuildStatus,
    pub status_glyph: Seq<char>,
    pub status_label: Seq<char>,
    pub started_at_ms: Option<i64>,
    pub duration_ms: Option<i64>,
    pub initiator: Option<Seq<char>>,
    pub source_version: Option<Seq<char>>,
    pub logs_deep_link: Option<Seq<char>>,
}

impl View for CodeBuildRecord {
    type V = CodeBuildRecordV;

    open spec fn view(&self) -> CodeBuildRecordV {
        CodeBuildRecordV {
            build_number: self.build_number,
            status: self.status,
            status_glyph: self.status_glyph@,
            status_label: self.status_label@,
            started_at_ms: self.started_at_ms,
            duration_ms: self.duration_ms,
            initiator: self.initiator.deep_view(),
            source_version: self.source_version.deep_view(),
            logs_deep_link: self.logs_deep_link.deep_view(),
        }
    }
}

impl DeepView for CodeBuildRecord {
    type V = CodeBuildRecordV;

    open spec fn deep_view(&self) -> CodeBuildRecordV {
        self@
    }
}

/// What a background fetch reports.
#[derive(Debug)]
pub enum CodeBuildEvent {
    /// The recent runs.
    Builds(Vec<CodeBuildRecord>),
    /// Why there are none.
    Failed(String),
}

/// What a `CodeBuildEvent` holds.
#[verifier::ext_equal]
pub enum CodeBuildEventV {
    Builds(Seq<CodeBuildRecordV>),
    Failed(Seq<char>),
}

impl View for CodeBuildEvent {
    type V = CodeBuildEventV;

    open spec fn view(&self) -> CodeBuildEventV {
        match self {
            CodeBuildEvent::Builds(builds) => CodeBuildEventV::Builds(builds.deep_view()),
            CodeBuildEvent::Failed(reason) => CodeBuildEventV::Failed(reason@),
        }
    }
}

} // verus!
