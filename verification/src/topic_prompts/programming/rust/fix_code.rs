//! A topic without worked examples: a request to mend a piece of Rust code.

use crate::topic_prompts::TopicPrompt;
use vstd::prelude::*;

verus! {

/// What the request opens with, up to the start of the code block.
pub const FIX_CODE_REQUEST: &'static str = "Could you help me to fix this Rust code:\n```rust\n";

/// What closes the code block and the request.
pub const FIX_CODE_CLOSING: &'static str = "\n```\n";

/// A request to mend Rust code that does not compile or run.
pub struct FixRustCode {
    query: String,
}

impl View for FixRustCode {
    type V = Seq<char>;

    /// The question.
    closed spec fn view(&self) -> Seq<char> {
        self.query@
    }
}

/// The request to mend `code_to_fix`: the opening, then the code as it was
/// given, inside a code block.
pub open spec fn fix_code_question(code_to_fix: Seq<char>) -> Seq<char> {
    FIX_CODE_REQUEST@ + code_to_fix + FIX_CODE_CLOSING@
}

impl TopicPrompt for FixRustCode {
    fn query(&self) -> (result: String)
        ensures
            result@ == self@,
    {
        self.query.clone()
    }

    fn new_from_prompt_template(code_to_fix: String) -> (result: Self)
        ensures
            result@ == fix_code_question(code_to_fix@),
    {
        let mut augmented_query = FIX_CODE_REQUEST.to_owned();
        augmented_query.append(code_to_fix.as_str());
        augmented_query.append(FIX_CODE_CLOSING);
        Self { query: augmented_query }
    }
}

} // verus!
