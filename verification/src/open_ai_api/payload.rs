//! The body of a completion request: one user message, a model and a fixed
//! temperature, written as JSON.

use vstd::prelude::*;
use vstd::std_specs::iter::IteratorSpec;

verus! {

/// What stands for one character of a prompt in the message: a line break
/// becomes a backslash and the letter `n`, any other character is kept.
pub open spec fn escaped_char(c: char) -> Seq<char> {
    if c == '\n' {
        seq!['\\', 'n']
    } else {
        seq![c]
    }
}

/// A text with each of its characters replaced by what stands for it.
pub open spec fn escape_newlines(text: Seq<char>) -> Seq<char> {
    text.map_values(|c: char| escaped_char(c)).flatten()
}

/// The JSON string literal, quotes included, that `serde_json` writes for a
/// text.
pub uninterp spec fn json_string_literal(text: Seq<char>) -> Seq<char>;

/// The request body around three JSON string literals: the model, the role of
/// the one message and its content.
pub open spec fn payload_frame(model: Seq<char>, role: Seq<char>, content: Seq<char>) -> Seq<char> {
    "{\"model\":"@ + model + ",\"messages\":[{\"role\":"@ + role + ",\"content\":"@ + content
        + "}],\"temperature\":0.01}"@
}

/// The request body for a prompt and the name of a model.
pub open spec fn request_payload(model: Seq<char>, prompt: Seq<char>) -> Seq<char> {
    payload_frame(
        json_string_literal(model),
        json_string_literal("user"@),
        json_string_literal(escape_newlines(prompt)),
    )
}

/// Escaping a text that ends in `c` is escaping what stands before `c` and
/// then `c` itself.
pub proof fn lemma_escape_push(text: Seq<char>, c: char)
    ensures
        escape_newlines(text.push(c)) == escape_newlines(text) + escaped_char(c),
{
    let each = |c: char| escaped_char(c);
    assert(text.push(c).map_values(each) =~= text.map_values(each).push(escaped_char(c)));
    text.map_values(each).lemma_flatten_push(escaped_char(c));
}

/// Escaping two texts set end to end is escaping each and setting the
/// results end to end: a character is escaped by itself, whatever stands
/// round it.
pub proof fn lemma_escape_concat(first: Seq<char>, second: Seq<char>)
    ensures
        escape_newlines(first + second) == escape_newlines(first) + escape_newlines(second),
    decreases second.len(),
{
    if second.len() == 0 {
        assert(first + second =~= first);
        assert(escape_newlines(second) =~= Seq::<char>::empty());
        assert(escape_newlines(first) + escape_newlines(second) =~= escape_newlines(first));
    } else {
        let front = second.drop_last();
        let c = second.last();
        assert(second =~= front.push(c));
        assert(first + second =~= (first + front).push(c));
        lemma_escape_concat(first, front);
        lemma_escape_push(first + front, c);
        lemma_escape_push(front, c);
        assert((escape_newlines(first) + escape_newlines(front)) + escaped_char(c)
            =~= escape_newlines(first) + (escape_newlines(front) + escaped_char(c)));
    }
}

/// No line break is left in an escaped text.
pub proof fn lemma_escaped_has_no_line_break(text: Seq<char>)
    ensures
        forall|i: int| 0 <= i < escape_newlines(text).len() ==> escape_newlines(text)[i] != '\n',
    decreases text.len(),
{
    if text.len() == 0 {
        assert(escape_newlines(text) =~= Seq::<char>::empty());
    } else {
        let front = text.drop_last();
        assert(text =~= front.push(text.last()));
        lemma_escaped_has_no_line_break(front);
        lemma_escape_push(front, text.last());
    }
}

/// A text without a line break is left as it is.
pub proof fn lemma_escape_keeps_text_without_line_break(text: Seq<char>)
    requires
        forall|i: int| 0 <= i < text.len() ==> text[i] != '\n',
    ensures
        escape_newlines(text) == text,
    decreases text.len(),
{
    if text.len() == 0 {
        assert(escape_newlines(text) =~= text);
    } else {
        let front = text.drop_last();
        assert(text =~= front.push(text.last()));
        lemma_escape_keeps_text_without_line_break(front);
        lemma_escape_push(front, text.last());
        assert(front + escaped_char(text.last()) =~= text);
    }
}

/// The number of line breaks in a text.
pub open spec fn line_breaks(text: Seq<char>) -> nat {
    text.filter(|c: char| c == '\n').len()
}

/// Each line break makes the escaped text one character longer, and nothing
/// else changes its length.
pub proof fn lemma_escaped_len(text: Seq<char>)
    ensures
        escape_newlines(text).len() == text.len() + line_breaks(text),
    decreases text.len(),
{
    reveal(Seq::filter);
    if text.len() == 0 {
        assert(escape_newlines(text) =~= Seq::<char>::empty());
    } else {
        let front = text.drop_last();
        assert(text =~= front.push(text.last()));
        lemma_escaped_len(front);
        lemma_escape_push(front, text.last());
    }
}

/// Calls `String::push`: the character is added at the end of the text, and
/// nothing else changes.
#[verifier::external_body]
fn push_char(text: &mut String, c: char)
    ensures
        final(text)@ == old(text)@.push(c),
{
    text.push(c);
}

/// Calls `serde_json::to_string` on a string slice and returns the JSON
/// string literal that it writes.
///
/// The call writes into a buffer in memory. Its only failure is a failure of
/// that writer, which a growing buffer does not have, so the literal is
/// always there.
#[verifier::external_body]
fn to_json_string(text: &str) -> (result: String)
    ensures
        result@ == json_string_literal(text@),
{
    serde_json::to_string(text).unwrap()
}

/// Replaces every line break in `text` by a backslash and the letter `n`.
pub fn escape_line_breaks(text: &str) -> (result: String)
    ensures
        result@ == escape_newlines(text@),
{
    broadcast use vstd::string::axiom_spec_iter, vstd::string::next_postcondition;

    let mut chars = text.chars();
    let mut result = String::new();
    let ghost mut seen: Seq<char> = Seq::empty();
    loop
        invariant
            seen + chars.remaining() == text@,
            result@ == escape_newlines(seen),
            chars.decrease() is Some,
        ensures
            result@ == escape_newlines(text@),
        decreases chars.decrease()->0,
    {
        let ghost before = chars.remaining();
        match chars.next() {
            None => {
                assert(text@ =~= seen);
                break ;
            },
            Some(c) => {
                proof {
                    lemma_escape_push(seen, c);
                    assert(seen.push(c) + before.drop_first() =~= seen + before);
                    seen = seen.push(c);
                }
                let ghost written = result@;
                if c == '\n' {
                    result.append("\\n");
                    proof {
                        reveal_strlit("\\n");
                        assert("\\n"@ =~= escaped_char(c));
                    }
                } else {
                    push_char(&mut result, c);
                    assert(written.push(c) =~= written + escaped_char(c));
                }
            },
        }
    }
    result
}

/// Sets three JSON string literals into the request body.
pub fn frame_payload(model: &str, role: &str, content: &str) -> (result: String)
    ensures
        result@ == payload_frame(model@, role@, content@),
{
    let mut result = "{\"model\":".to_owned();
    result.append(model);
    result.append(",\"messages\":[{\"role\":");
    result.append(role);
    result.append(",\"content\":");
    result.append(content);
    result.append("}],\"temperature\":0.01}");
    result
}

/// Writes the request body for `prompt` and the model called `model`.
pub fn write_payload(model: &str, prompt: &str) -> (result: String)
    ensures
        result@ == request_payload(model@, prompt@),
{
    let escaped_query = escape_line_breaks(prompt);
    let model_literal = to_json_string(model);
    let role_literal = to_json_string("user");
    let content_literal = to_json_string(escaped_query.as_str());
    frame_payload(model_literal.as_str(), role_literal.as_str(), content_literal.as_str())
}

} // verus!
