//! The code-generation pipeline: the jobs it takes, what it returns for them, and how
//! it fails. Times are milliseconds; whether resources allow a job is checked by the
//! caller's resource monitor and handed in.

use crate::text::{owned, push_str};
use vstd::prelude::*;

verus! {

/// A request for code.
#[derive(Debug, Clone)]
pub struct CodeRequest {
    pub prompt: String,
    pub language: String,
    pub requirements: Vec<String>,
}

/// Figures about a piece of generated code.
#[derive(Debug, Clone, Copy)]
pub struct CodeMetrics {
    pub tokens_generated: u32,
    pub generation_time_ms: u64,
    pub memory_used_bytes: usize,
}

/// Generated code in a language, with its figures.
#[derive(Debug)]
pub struct GeneratedCode {
    pub code: String,
    pub language: String,
    pub metrics: CodeMetrics,
}

/// A job for the pipeline.
#[derive(Debug)]
pub struct GenerationJob {
    pub id: String,
    pub request: CodeRequest,
    pub language: String,
    pub priority: u8,
}

/// What the pipeline returns for a job, with the time it took.
#[derive(Debug)]
pub struct GenerationOutput {
    pub code: GeneratedCode,
    pub duration: u64,
}

/// Why a job failed.
#[derive(Debug, Clone)]
pub enum PipelineError {
    ResourceExhausted,
    GenerationFailed(String),
    ValidationFailed(String),
}

/// The message of an error.
pub open spec fn error_message(e: PipelineError) -> Seq<char> {
    match e {
        PipelineError::ResourceExhausted => "Resources exhausted"@,
        PipelineError::GenerationFailed(m) => "Generation failed: "@ + m@,
        PipelineError::ValidationFailed(m) => "Validation failed: "@ + m@,
    }
}

impl PipelineError {
    /// The message of the error, as [`error_message`] gives it.
    pub fn message(&self) -> (r: String)
        ensures
            r@ == error_message(*self),
    {
        match self {
            PipelineError::ResourceExhausted => owned("Resources exhausted"),
            PipelineError::GenerationFailed(m) => {
                let mut r = owned("Generation failed: ");
                push_str(&mut r, m.as_str());
                r
            },
            PipelineError::ValidationFailed(m) => {
                let mut r = owned("Validation failed: ");
                push_str(&mut r, m.as_str());
                r
            },
        }
    }
}

/// The pipeline, running at most `max_parallel_jobs` jobs at once.
#[derive(Debug)]
pub struct Pipeline {
    pub max_parallel_jobs: usize,
}

impl Pipeline {
    /// A pipeline running at most `max_parallel_jobs` jobs at once.
    pub fn new(max_parallel_jobs: usize) -> (p: Pipeline)
        ensures
            p.max_parallel_jobs == max_parallel_jobs,
    {
        Pipeline { max_parallel_jobs }
    }

    /// Process a job: refused when resources are short, else answered with the
    /// placeholder code in the job's language, no tokens and no memory counted, and
    /// `elapsed_ms` as both the generation time and the duration.
    pub fn process_job(&self, job: GenerationJob, resources_ok: bool, elapsed_ms: u64) -> (r: Result<GenerationOutput, PipelineError>)
        ensures
            r is Err <==> !resources_ok,
            r matches Err(e) ==> e is ResourceExhausted,
            r matches Ok(out) ==> {
                &&& out.code.code@ == "// Generated code here"@
                &&& out.code.language == job.language
                &&& out.code.metrics.tokens_generated == 0
                &&& out.code.metrics.generation_time_ms == elapsed_ms
                &&& out.code.metrics.memory_used_bytes == 0
                &&& out.duration == elapsed_ms
            },
    {
        if !resources_ok {
            return Err(PipelineError::ResourceExhausted);
        }
        let code = GeneratedCode {
            code: owned("// Generated code here"),
            language: job.language,
            metrics: CodeMetrics { tokens_generated: 0, generation_time_ms: elapsed_ms, memory_used_bytes: 0 },
        };
        Ok(GenerationOutput { code, duration: elapsed_ms })
    }
}

} // verus!
