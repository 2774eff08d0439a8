//! Topics: templates that turn what the caller has (a piece of code, a
//! statement on the weather) into the question that is put to the model.

pub mod programming;
pub mod test_prompts;

use vstd::prelude::*;

verus! {

/// A prompt for one kind of question.
///
/// A topic keeps the wording of a question or request in one place. The
/// prompts that are sent are made from it: the caller's input is set into
/// the topic's template.
pub trait TopicPrompt: Sized {
    /// Sets `input` into the topic's template.
    fn new_from_prompt_template(input: String) -> (result: Self);

    /// Returns the question.
    fn query(&self) -> (result: String);
}

} // verus!
