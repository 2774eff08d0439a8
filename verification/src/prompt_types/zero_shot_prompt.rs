//! A prompt that is sent as it stands, with no worked examples before it.

use vstd::prelude::*;

verus! {

/// A prompt whose text is used verbatim.
pub struct ZeroShotPrompt {
    prompt: String,
}

impl View for ZeroShotPrompt {
    type V = Seq<char>;

    /// The text of the prompt.
    closed spec fn view(&self) -> Seq<char> {
        self.prompt@
    }
}

impl ZeroShotPrompt {
    /// Wraps `prompt` without changing it.
    pub fn new(prompt: String) -> (result: Self)
        ensures
            result@ == prompt@,
    {
        Self { prompt }
    }

    /// Returns the text that the prompt was made from.
    pub fn prompt(&self) -> (result: String)
        ensures
            result@ == self@,
    {
        self.prompt.clone()
    }
}

} // verus!
