//! A prompt that is preceded by worked examples, which steer the style and
//! content of the answer.
//!
//! In some cases one or two examples are enough, and fewer examples cost
//! fewer tokens; where they are not, up to five can be used.

use vstd::prelude::*;

verus! {

/// The label that stands between the worked examples and the question.
pub open spec fn question_label() -> Seq<char> {
    "\nquestion: "@
}

/// The texts of a run of examples, in the same order.
pub open spec fn example_texts(examples: Seq<String>) -> Seq<Seq<char>> {
    examples.map_values(|example: String| example@)
}

/// The first `count` of `examples`, one after the other with nothing between
/// them and nothing changed in them.
pub open spec fn leading_examples(examples: Seq<Seq<char>>, count: nat) -> Seq<char> {
    examples.take(count as int).flatten()
}

/// The text of a multi-shot prompt: the first `count` examples in their given
/// order, then the question label, then the question itself.
pub open spec fn multi_shot_text(examples: Seq<Seq<char>>, count: nat, question: Seq<char>) -> Seq<
    char,
> {
    leading_examples(examples, count) + question_label() + question
}

/// Where in a multi-shot prompt the example with index `index` begins: after
/// the examples that come before it.
pub open spec fn example_offset(examples: Seq<Seq<char>>, index: nat) -> nat {
    leading_examples(examples, index).len()
}

/// One more example is set behind those that are already there.
pub proof fn lemma_leading_examples_step(examples: Seq<Seq<char>>, count: nat)
    requires
        count < examples.len(),
    ensures
        leading_examples(examples, count + 1) == leading_examples(examples, count)
            + examples[count as int],
{
    let before = examples.take(count as int);
    assert(examples.take(count as int + 1) =~= before.push(examples[count as int]));
    before.lemma_flatten_push(examples[count as int]);
}

/// A multi-shot prompt is made of exactly `count` examples and one question
/// label: the examples stand one after the other from the start, each with
/// its own text and in the order of the source, the label follows the last of
/// them, and the question is all that follows the label.
pub proof fn lemma_examples_then_label(examples: Seq<Seq<char>>, count: nat, question: Seq<char>)
    requires
        count <= examples.len(),
    ensures
        forall|k: nat|
            k < count ==> #[trigger] example_offset(examples, k + 1) == example_offset(examples, k)
                + examples[k as int].len(),
        forall|k: nat|
            k < count ==> multi_shot_text(examples, count, question).subrange(
                example_offset(examples, k) as int,
                #[trigger] example_offset(examples, k + 1) as int,
            ) == examples[k as int],
        multi_shot_text(examples, count, question).subrange(
            example_offset(examples, count) as int,
            example_offset(examples, count) as int + question_label().len(),
        ) == question_label(),
        multi_shot_text(examples, count, question).len() == example_offset(examples, count)
            + question_label().len() + question.len(),
    decreases count,
{
    let text = multi_shot_text(examples, count, question);
    let lead = leading_examples(examples, count);
    assert(text.subrange(lead.len() as int, lead.len() as int + question_label().len())
        =~= question_label());
    if count > 0 {
        let fewer = (count - 1) as nat;
        lemma_examples_then_label(examples, fewer, question);
        lemma_leading_examples_step(examples, fewer);
        let shorter = multi_shot_text(examples, fewer, question);
        assert forall|k: nat| k < count implies text.subrange(
            example_offset(examples, k) as int,
            #[trigger] example_offset(examples, k + 1) as int,
        ) == examples[k as int] by {
            if k < fewer {
                let from = example_offset(examples, k) as int;
                let to = example_offset(examples, k + 1) as int;
                lemma_offsets_grow(examples, k + 1, fewer);
                assert(shorter.subrange(from, to) == examples[k as int]);
                assert(text.subrange(from, to) =~= shorter.subrange(from, to));
            } else {
                assert(text.subrange(
                    example_offset(examples, fewer) as int,
                    example_offset(examples, count) as int,
                ) =~= examples[fewer as int]);
            }
        }
    }
}

/// An example begins no earlier than the examples before it.
pub proof fn lemma_offsets_grow(examples: Seq<Seq<char>>, earlier: nat, later: nat)
    requires
        earlier <= later <= examples.len(),
    ensures
        example_offset(examples, earlier) <= example_offset(examples, later),
        leading_examples(examples, earlier) == leading_examples(examples, later).take(
            example_offset(examples, earlier) as int,
        ),
    decreases later,
{
    if earlier < later {
        let fewer = (later - 1) as nat;
        lemma_offsets_grow(examples, earlier, fewer);
        lemma_leading_examples_step(examples, fewer);
        assert(leading_examples(examples, later).take(example_offset(examples, earlier) as int)
            =~= leading_examples(examples, fewer).take(example_offset(examples, earlier) as int));
    } else {
        assert(leading_examples(examples, later).take(example_offset(examples, later) as int)
            =~= leading_examples(examples, later));
    }
}

/// The question stands in a multi-shot prompt once, at its end, as it was
/// given: the prompt is what it would be for an empty question, and then the
/// question.
pub proof fn lemma_question_is_verbatim_suffix(
    examples: Seq<Seq<char>>,
    count: nat,
    question: Seq<char>,
)
    ensures
        multi_shot_text(examples, count, question) == multi_shot_text(
            examples,
            count,
            Seq::empty(),
        ) + question,
        multi_shot_text(examples, count, question).len() == multi_shot_text(
            examples,
            count,
            Seq::empty(),
        ).len() + question.len(),
        multi_shot_text(examples, count, question).skip(
            multi_shot_text(examples, count, Seq::empty()).len() as int,
        ) == question,
{
    let head = multi_shot_text(examples, count, Seq::empty());
    assert(head =~= leading_examples(examples, count) + question_label());
    assert((head + question).skip(head.len() as int) =~= question);
}

/// Only the first `count` examples of a source reach the prompt: two sources
/// that agree on them give the same prompt.
pub proof fn lemma_later_examples_are_left_out(
    examples: Seq<Seq<char>>,
    others: Seq<Seq<char>>,
    count: nat,
    question: Seq<char>,
)
    requires
        count <= examples.len(),
        count <= others.len(),
        forall|k: int| 0 <= k < count ==> examples[k] == others[k],
    ensures
        multi_shot_text(examples, count, question) == multi_shot_text(others, count, question),
{
    assert(examples.take(count as int) =~= others.take(count as int));
}

/// A source of worked examples for a topic.
///
/// An implementation supplies a fixed set of five question and answer pairs,
/// each already rendered as one text. They are placed ahead of the question
/// as they are, so each should end where the next may begin (with a line
/// break, say).
pub trait MultiShotQuestionsAndAnswers {
    /// Returns the five examples, in the order in which they are to be used.
    fn multi_shot_questions_and_answers(&self) -> (result: [String; 5]);
}

/// How many of the five examples go into a prompt.
#[derive(Debug, Clone, Copy, PartialEq, Eq)]
pub enum MultiShotExampleCount {
    One,
    Two,
    Tree,
    Four,
    Five,
}

impl MultiShotExampleCount {
    /// The number that the value stands for.
    pub open spec fn spec_count(&self) -> nat {
        match self {
            MultiShotExampleCount::One => 1,
            MultiShotExampleCount::Two => 2,
            MultiShotExampleCount::Tree => 3,
            MultiShotExampleCount::Four => 4,
            MultiShotExampleCount::Five => 5,
        }
    }

    /// Returns the number that the value stands for, between 1 and 5.
    pub fn count(&self) -> (result: usize)
        ensures
            result == self.spec_count(),
            1 <= result <= 5,
    {
        match self {
            MultiShotExampleCount::One => 1,
            MultiShotExampleCount::Two => 2,
            MultiShotExampleCount::Tree => 3,
            MultiShotExampleCount::Four => 4,
            MultiShotExampleCount::Five => 5,
        }
    }
}

/// A prompt made of worked examples and a question.
pub struct MultiShotPrompt {
    prompt: String,
}

impl View for MultiShotPrompt {
    type V = Seq<char>;

    /// The text of the prompt.
    closed spec fn view(&self) -> Seq<char> {
        self.prompt@
    }
}

impl MultiShotPrompt {
    /// Wraps a text that already holds the examples and the question.
    pub fn new(prompt: String) -> (result: Self)
        ensures
            result@ == prompt@,
    {
        Self { prompt }
    }

    /// Puts the first `count` of `examples` ahead of `question`.
    ///
    /// The examples keep their order and their text; none is left out or
    /// used twice, and the question is neither trimmed nor escaped.
    pub fn compose(question: &str, examples: &[String; 5], count: MultiShotExampleCount) -> (result:
        Self)
        ensures
            result@ == multi_shot_text(example_texts(examples@), count.spec_count(), question@),
    {
        let wanted: usize = count.count();
        let ghost texts = example_texts(examples@);
        let mut prompt = String::new();
        let mut used: usize = 0;
        while used < wanted
            invariant
                used <= wanted <= 5,
                texts == example_texts(examples@),
                texts.len() == 5,
                prompt@ == leading_examples(texts, used as nat),
            decreases wanted - used,
        {
            proof {
                lemma_leading_examples_step(texts, used as nat);
            }
            prompt.append(examples[used].as_str());
            used = used + 1;
        }
        prompt.append("\nquestion: ");
        prompt.append(question);
        Self { prompt }
    }

    /// Returns the text of the prompt.
    pub fn prompt(&self) -> (result: String)
        ensures
            result@ == self@,
    {
        self.prompt.clone()
    }
}

} // verus!
