//! What the conversational providers have in common: their errors and the
//! steps a reply stream resolves into.
use vstd::prelude::*;

verus! {

/// The key under which a message carries a provider's error.
pub const LLM_EXTRA_ERROR_KEY: &'static str = "error";

/// Why a provider cannot be built or cannot answer.
#[derive(Debug, Clone)]
pub enum LlmError {
    /// The configuration lacks something the provider needs.
    Config(String),
    /// The remote service could not be reached or refused the request.
    Http(String),
    /// The provider does not offer the requested capability.
    Unsupported(String),
}

/// What the reader of a reply stream does next: remember the conversation
/// the service assigned, pass on a piece of the answer, or report a failure
/// (after which the stream is over).
#[derive(Debug, Clone)]
pub enum StreamStep {
    Conversation(String),
    Answer(String),
    Failure(String),
}

/// The plain content of a stream step.
pub enum StepView {
    Conversation(Seq<char>),
    Answer(Seq<char>),
    Failure(Seq<char>),
}

impl View for StreamStep {
    type V = StepView;

    open spec fn view(&self) -> StepView {
        match self {
            StreamStep::Conversation(s) => StepView::Conversation(s@),
            StreamStep::Answer(s) => StepView::Answer(s@),
            StreamStep::Failure(s) => StepView::Failure(s@),
        }
    }
}

/// The plain content of a list of stream steps.
pub open spec fn steps_view(v: Seq<StreamStep>) -> Seq<StepView> {
    v.map_values(|s: StreamStep| s@)
}

} // verus!
