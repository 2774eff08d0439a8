//! The shapes a prompt can take.

pub mod multi_shot_prompt;
pub mod zero_shot_prompt;

pub use multi_shot_prompt::{MultiShotExampleCount, MultiShotPrompt, MultiShotQuestionsAndAnswers};
pub use zero_shot_prompt::ZeroShotPrompt;

use multi_shot_prompt::{example_texts, multi_shot_text};
use vstd::prelude::*;

verus! {

/// A prompt of either shape, so that both can be handed on as one type.
pub enum PromptType {
    ZeroShotPrompt(ZeroShotPrompt),
    MultiShotPrompt(MultiShotPrompt),
}

impl View for PromptType {
    type V = Seq<char>;

    /// The text of the prompt, whatever its shape.
    open spec fn view(&self) -> Seq<char> {
        match self {
            PromptType::ZeroShotPrompt(zero_shot_prompt) => zero_shot_prompt@,
            PromptType::MultiShotPrompt(multi_shot_prompt) => multi_shot_prompt@,
        }
    }
}

impl PromptType {
    /// Builds a multi-shot prompt.
    ///
    /// * `inner_prompt` is the question, already rendered from its template
    /// * `multi_shot_questions_and_answers` supplies the worked examples for
    ///   the topic
    /// * `multi_shot_example_count` says how many of them are used
    ///
    /// The source is asked once for its examples. The first of them, as many
    /// as asked for, come first and in the order in which the source gave
    /// them; the question follows its label.
    pub fn new_multi_shot_prompt<Q: MultiShotQuestionsAndAnswers>(
        inner_prompt: String,
        multi_shot_questions_and_answers: Q,
        multi_shot_example_count: MultiShotExampleCount,
    ) -> (result: PromptType)
        ensures
            result is MultiShotPrompt,
            exists|examples: [String; 5]|
                {
                    &&& call_ensures(
                        Q::multi_shot_questions_and_answers,
                        (&multi_shot_questions_and_answers,),
                        examples,
                    )
                    &&& result@ == multi_shot_text(
                        example_texts(examples@),
                        multi_shot_example_count.spec_count(),
                        inner_prompt@,
                    )
                },
    {
        let examples = multi_shot_questions_and_answers.multi_shot_questions_and_answers();
        PromptType::MultiShotPrompt(
            MultiShotPrompt::compose(inner_prompt.as_str(), &examples, multi_shot_example_count),
        )
    }

    /// Wraps a question that is sent without examples, so that it can be
    /// handed on as a `PromptType`.
    pub fn new_zero_shot_prompt(inner_prompt: String) -> (result: PromptType)
        ensures
            result is ZeroShotPrompt,
            result@ == inner_prompt@,
    {
        PromptType::ZeroShotPrompt(ZeroShotPrompt::new(inner_prompt))
    }

    /// Returns the text of the prompt.
    pub fn prompt(&self) -> (result: String)
        ensures
            result@ == self@,
    {
        match self {
            PromptType::MultiShotPrompt(multi_shot_prompt) => multi_shot_prompt.prompt(),
            PromptType::ZeroShotPrompt(zero_shot_prompt) => zero_shot_prompt.prompt(),
        }
    }
}

} // verus!
