//! The code-writing agent: the kinds of task it takes, the prompts it writes for
//! generating, testing and reviewing code, and the figures it keeps about a run.

use crate::text::{owned, push_str, str_eq};
use vstd::prelude::*;

verus! {

/// Figures about one generation.
#[derive(Debug, Clone, Copy, PartialEq, Eq, Structural)]
pub struct GenerationMetrics {
    pub generation_time_ms: u64,
    pub tokens_generated: usize,
    pub required_attempts: u8,
    pub validation_passed: bool,
}

impl Default for GenerationMetrics {
    /// Nothing measured yet.
    fn default() -> (m: Self)
        ensures
            m.generation_time_ms == 0,
            m.tokens_generated == 0,
            m.required_attempts == 0,
            !m.validation_passed,
    {
        GenerationMetrics {
            generation_time_ms: 0,
            tokens_generated: 0,
            required_attempts: 0,
            validation_passed: false,
        }
    }
}

/// Generated code, with its tests and review when they were asked for.
#[derive(Debug)]
pub struct GeneratedCode {
    pub code: String,
    pub tests: Option<String>,
    pub review: Option<String>,
    pub metrics: GenerationMetrics,
}

/// The most attempts made at generating code.
pub const MAX_RETRIES: u8 = 3;

/// The kind of task the agent handles.
#[derive(Debug, Clone, Copy, PartialEq, Eq, Structural)]
pub enum TaskKind {
    CodeGeneration,
    CodeReview,
    TestGeneration,
}

/// The kind named by a task type, if the agent handles it.
pub open spec fn kind_named(t: Seq<char>) -> Option<TaskKind> {
    if t == "code_generation"@ {
        Some(TaskKind::CodeGeneration)
    } else if t == "code_review"@ {
        Some(TaskKind::CodeReview)
    } else if t == "test_generation"@ {
        Some(TaskKind::TestGeneration)
    } else {
        None
    }
}

impl TaskKind {
    /// The kind named by `task_type`; other types are not handled.
    pub fn from_task_type(task_type: &str) -> (k: Option<TaskKind>)
        ensures
            k == kind_named(task_type@),
    {
        if str_eq(task_type, "code_generation") {
            Some(TaskKind::CodeGeneration)
        } else if str_eq(task_type, "code_review") {
            Some(TaskKind::CodeReview)
        } else if str_eq(task_type, "test_generation") {
            Some(TaskKind::TestGeneration)
        } else {
            None
        }
    }
}

/// Whether another generation attempt is made after `attempts` of them.
pub fn another_attempt(attempts: u8) -> (r: bool)
    ensures
        r == (attempts < MAX_RETRIES),
{
    attempts < MAX_RETRIES
}

/// How one generation attempt went: code came back (and passed the quick check or
/// not), the model failed with a message, or the attempt ran out of time.
#[derive(Debug, Clone)]
pub enum AttemptResult {
    Generated { code: String, valid: bool },
    Failed(String),
    TimedOut,
}

/// A run of generation attempts: how many were started, and the message of the last
/// model failure, if any. Running the model, under its timeout and at the attempt's
/// temperature, is the caller's part.
#[derive(Debug, Clone)]
pub struct GenerationRun {
    pub attempts: u8,
    pub last_error: Option<String>,
}

impl GenerationRun {
    /// A run with no attempt made.
    pub fn new() -> (r: GenerationRun)
        ensures
            r.attempts == 0,
            r.last_error is None,
    {
        GenerationRun { attempts: 0, last_error: None }
    }

    /// Start the next attempt, if fewer than [`MAX_RETRIES`] were made: its number is
    /// returned and recorded in `metrics` as the attempts required.
    pub fn start_attempt(&mut self, metrics: &mut GenerationMetrics) -> (n: Option<u8>)
        ensures
            old(self).attempts < MAX_RETRIES ==> {
                &&& n == Some((old(self).attempts + 1) as u8)
                &&& final(self).attempts == old(self).attempts + 1
                &&& *final(metrics) == (GenerationMetrics {
                    required_attempts: (old(self).attempts + 1) as u8,
                    ..*old(metrics)
                })
            },
            old(self).attempts >= MAX_RETRIES ==> n is None && final(self).attempts == old(
                self,
            ).attempts && *final(metrics) == *old(metrics),
            final(self).last_error == old(self).last_error,
    {
        if another_attempt(self.attempts) {
            self.attempts = self.attempts + 1;
            metrics.required_attempts = self.attempts;
            Some(self.attempts)
        } else {
            None
        }
    }

    /// Take in how an attempt went: code that passed the quick check ends the run with
    /// that code; a model failure is remembered; anything else is let go.
    pub fn record(&mut self, result: AttemptResult) -> (done: Option<String>)
        ensures
            final(self).attempts == old(self).attempts,
            match result {
                AttemptResult::Generated { code, valid } => {
                    &&& done == (if valid { Some(code) } else { None })
                    &&& final(self).last_error == old(self).last_error
                },
                AttemptResult::Failed(e) => done is None && final(self).last_error == Some(e),
                AttemptResult::TimedOut => done is None && final(self).last_error == old(
                    self,
                ).last_error,
            },
    {
        match result {
            AttemptResult::Generated { code, valid } => {
                if valid {
                    Some(code)
                } else {
                    None
                }
            },
            AttemptResult::Failed(e) => {
                self.last_error = Some(e);
                None
            },
            AttemptResult::TimedOut => None,
        }
    }
}

/// The prompt asking for code in `language` meeting `prompt`.
pub open spec fn context_text(language: Seq<char>, prompt: Seq<char>) -> Seq<char> {
    "Language: "@ + language + "\nTask: Generate code according to the following requirements:\n\n"@
        + prompt
}

/// The prompt asking for code, as [`context_text`] gives it.
pub fn prepare_context(language: &str, prompt: &str) -> (r: String)
    ensures
        r@ == context_text(language@, prompt@),
{
    let mut r = owned("Language: ");
    push_str(&mut r, language);
    push_str(&mut r, "\nTask: Generate code according to the following requirements:\n\n");
    push_str(&mut r, prompt);
    r
}

/// The prompt asking for tests of `code` in `language`.
pub open spec fn test_text(code: Seq<char>, language: Seq<char>) -> Seq<char> {
    "Generate comprehensive tests for the following "@ + language + " code:\n\n"@ + code
        + "\n\nTests:"@
}

/// The prompt asking for tests, as [`test_text`] gives it.
pub fn prepare_test_prompt(code: &str, language: &str) -> (r: String)
    ensures
        r@ == test_text(code@, language@),
{
    let mut r = owned("Generate comprehensive tests for the following ");
    push_str(&mut r, language);
    push_str(&mut r, " code:\n\n");
    push_str(&mut r, code);
    push_str(&mut r, "\n\nTests:");
    r
}

/// The prompt asking for a review of `code` in `language`, with its tests if any.
pub open spec fn review_text(code: Seq<char>, tests: Option<Seq<char>>, language: Seq<char>) -> Seq<char> {
    "Review the following "@ + language
        + " code for best practices, potential issues, and improvements:\n\n"@ + code + (match tests {
        Some(t) => "\n\nAssociated tests:\n\n"@ + t,
        None => Seq::<char>::empty(),
    }) + "\n\nCode Review:"@
}

/// The prompt asking for a review, as [`review_text`] gives it.
pub fn prepare_review_prompt(code: &str, tests: &Option<String>, language: &str) -> (r: String)
    ensures
        r@ == review_text(code@, match tests {
            Some(t) => Some(t@),
            None => None,
        }, language@),
{
    let mut r = owned("Review the following ");
    push_str(&mut r, language);
    push_str(&mut r, " code for best practices, potential issues, and improvements:\n\n");
    push_str(&mut r, code);
    let ghost before = r@;
    if let Some(t) = tests {
        push_str(&mut r, "\n\nAssociated tests:\n\n");
        push_str(&mut r, t.as_str());
    }
    push_str(&mut r, "\n\nCode Review:");
    proof {
        match tests {
            Some(t) => {
                assert(r@ =~= review_text(code@, Some(t@), language@));
            },
            None => {
                assert(r@ =~= review_text(code@, None, language@));
            },
        }
    }
    r
}

} // verus!
