//! The request-user-input tool: availability and argument preparation.
//!
//! The tool asks the user up to a few short questions and waits for the
//! answers. It is available in every collaboration mode. Its arguments
//! are accepted only when every question offers at least one option; on
//! acceptance every question is marked as also taking a free-form answer.
//! The host parses the raw arguments, runs the exchange with the session,
//! and serializes the response; the decisions in between are made here.

use vstd::prelude::*;

verus! {

/// The collaboration modes a session can be in.
#[derive(Clone, Copy, Debug, PartialEq, Eq, Structural)]
pub enum ModeKind {
    Plan,
    Default,
    Execute,
    PairProgramming,
}

/// How a tool is invoked.
#[derive(Clone, Copy, Debug, PartialEq, Eq, Structural)]
pub enum ToolKind {
    Function,
}

/// A failure surfaced to the model or to the host.
#[derive(Debug)]
pub enum FunctionCallError {
    /// The model is told what was wrong and may try again.
    RespondToModel(String),
    /// The turn cannot continue.
    Fatal(String),
}

/// One question put to the user.
pub struct UserInputQuestion {
    /// The question text.
    pub prompt: String,
    /// The offered answers; required and non-empty.
    pub options: Option<Vec<String>>,
    /// Whether a free-form answer is also accepted.
    pub is_other: bool,
}

/// The handler for the request-user-input tool.
pub struct RequestUserInputHandler;

impl RequestUserInputHandler {
    /// The tool is a plain function tool.
    pub fn kind(&self) -> (r: ToolKind)
        ensures
            r == ToolKind::Function,
    {
        ToolKind::Function
    }
}

/// The tool is available in every collaboration mode.
pub fn request_user_input_is_available_in_mode(_mode: ModeKind) -> (r: bool)
    ensures
        r,
{
    true
}

/// No mode makes the tool unavailable, so there is never a message.
pub fn request_user_input_unavailable_message(_mode: ModeKind) -> (r: Option<String>)
    ensures
        r is None,
{
    None
}

/// The description offered to the model.
pub fn request_user_input_tool_description() -> (r: String)
    ensures
        r@ == "Request user input for one to three short questions and wait for the response. This tool is available in all collaboration modes."@,
{
    "Request user input for one to three short questions and wait for the response. This tool is available in all collaboration modes.".to_owned()
}

/// A question that offers no options: none at all, or an empty list.
pub open spec fn lacks_options(q: UserInputQuestion) -> bool {
    match q.options {
        Some(opts) => opts@.len() == 0,
        None => true,
    }
}

/// Whether some question of the list offers no options.
pub open spec fn any_lacks_options(qs: Seq<UserInputQuestion>) -> bool {
    exists|i: int| 0 <= i < qs.len() && lacks_options(#[trigger] qs[i])
}

/// Whether some question of the list offers no options: none at all, or
/// an empty list.
pub fn any_question_lacks_options(questions: &Vec<UserInputQuestion>) -> (r: bool)
    ensures
        r == any_lacks_options(questions@),
{
    let n = questions.len();
    let mut i: usize = 0;
    while i < n
        invariant
            i <= n,
            n == questions@.len(),
            forall|j: int| 0 <= j < i ==> !lacks_options(#[trigger] questions@[j]),
        decreases n - i,
    {
        let missing = match &questions[i].options {
            Some(opts) => opts.len() == 0,
            None => true,
        };
        if missing {
            proof {
                assert(lacks_options(questions@[i as int]));
            }
            return true;
        }
        i = i + 1;
    }
    false
}

/// Accept or reject the questions of a request. Rejected — with a message
/// for the model — exactly when some question lacks options; accepted
/// otherwise, with every question marked as also taking a free-form
/// answer and nothing else changed.
pub fn prepare_questions(questions: Vec<UserInputQuestion>) -> (r: Result<
    Vec<UserInputQuestion>,
    FunctionCallError,
>)
    ensures
        any_lacks_options(questions@) <==> r is Err,
        r matches Err(e) ==> e matches FunctionCallError::RespondToModel(m)
            && m@ == "request_user_input requires non-empty options for every question"@,
        r matches Ok(out) ==> {
            &&& out@.len() == questions@.len()
            &&& forall|i: int| 0 <= i < out@.len() ==> {
                &&& (#[trigger] out@[i]).prompt == questions@[i].prompt
                &&& out@[i].options == questions@[i].options
                &&& out@[i].is_other
            }
        },
{
    if any_question_lacks_options(&questions) {
        return Err(
            FunctionCallError::RespondToModel(
                "request_user_input requires non-empty options for every question".to_owned(),
            ),
        );
    }
    let ghost original = questions@;
    let mut questions = questions;
    let n = questions.len();
    let mut i: usize = 0;
    while i < n
        invariant
            i <= n,
            n == questions@.len(),
            original.len() == n,
            forall|j: int| 0 <= j < n ==> {
                &&& (#[trigger] questions@[j]).prompt == original[j].prompt
                &&& questions@[j].options == original[j].options
            },
            forall|j: int| 0 <= j < i ==> (#[trigger] questions@[j]).is_other,
            !any_lacks_options(original),
        decreases n - i,
    {
        questions[i].is_other = true;
        i = i + 1;
    }
    Ok(questions)
}

} // verus!
