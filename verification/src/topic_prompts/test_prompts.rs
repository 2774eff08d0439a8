//! A topic with worked examples: a statement about the weather, answered in
//! English and in German.

use crate::prompt_types::multi_shot_prompt::example_texts;
use crate::prompt_types::MultiShotQuestionsAndAnswers;
use crate::topic_prompts::TopicPrompt;
use vstd::prelude::*;

verus! {

/// What the weather question opens with; the statement on the weather
/// follows on a line of its own.
pub const WEATHER_REQUEST: &'static str =
    "Could you generate a statement about the weather based on the weather condition statement in similar style as my examples above.\n";

/// The first worked example on the weather.
pub const WEATHER_EXAMPLE_FIRST: &'static str =
    "prompt: it is 25c and sunny in Berlin, answer: it seems like summer weather. Es sieht aus wie Sommerwetter â˜€ï¸\n";

/// The second worked example on the weather.
pub const WEATHER_EXAMPLE_SECOND: &'static str =
    "prompt: it is 8c and rainy in Berlin, answer: it seems like autumn weather. Es sieht aus wie Herbstwetter ğŸ‚\n";

/// The third worked example on the weather.
pub const WEATHER_EXAMPLE_THIRD: &'static str =
    "prompt: it is 11c and sunny in Berlin, answer: it seems like autumn weather. Es sieht aus wie Herbstwetter ğŸ‚\n";

/// The fourth worked example on the weather.
pub const WEATHER_EXAMPLE_FOURTH: &'static str =
    "prompt: it is -2c and sunny in Berlin, answer: it seems like winter weather. Es sieht aus wie Winterwetter â„ï¸\n";

/// The fifth worked example on the weather.
pub const WEATHER_EXAMPLE_FIFTH: &'static str =
    "prompt: it is -4c and sunny in Berlin, answer: it seems like winter weather. Es sieht aus wie Winterwetter â„ï¸\n";

/// A request for a statement on the weather in the style of the worked
/// examples.
pub struct WeatherInTwoLanguages {
    query: String,
}

impl View for WeatherInTwoLanguages {
    type V = Seq<char>;

    /// The question.
    closed spec fn view(&self) -> Seq<char> {
        self.query@
    }
}

/// The question on the weather: the request, then the statement on the
/// weather, then a line break.
pub open spec fn weather_question(weather_statement: Seq<char>) -> Seq<char> {
    WEATHER_REQUEST@ + weather_statement + "\n"@
}

/// The five worked examples on the weather.
pub open spec fn weather_examples() -> Seq<Seq<char>> {
    seq![
        WEATHER_EXAMPLE_FIRST@,
        WEATHER_EXAMPLE_SECOND@,
        WEATHER_EXAMPLE_THIRD@,
        WEATHER_EXAMPLE_FOURTH@,
        WEATHER_EXAMPLE_FIFTH@,
    ]
}

impl TopicPrompt for WeatherInTwoLanguages {
    fn query(&self) -> (result: String)
        ensures
            result@ == self@,
    {
        self.query.clone()
    }

    fn new_from_prompt_template(weather_statement: String) -> (result: Self)
        ensures
            result@ == weather_question(weather_statement@),
    {
        let mut augmented_query = WEATHER_REQUEST.to_owned();
        augmented_query.append(weather_statement.as_str());
        augmented_query.append("\n");
        Self { query: augmented_query }
    }
}

/// The worked examples that go with [`WeatherInTwoLanguages`].
pub struct MultiShotQuestionsAndAnswersWeatherInTwoLanguages;

impl MultiShotQuestionsAndAnswers for MultiShotQuestionsAndAnswersWeatherInTwoLanguages {
    fn multi_shot_questions_and_answers(&self) -> (result: [String; 5])
        ensures
            example_texts(result@) == weather_examples(),
    {
        let qa_1 = WEATHER_EXAMPLE_FIRST.to_owned();
        let qa_2 = WEATHER_EXAMPLE_SECOND.to_owned();
        let qa_3 = WEATHER_EXAMPLE_THIRD.to_owned();
        let qa_4 = WEATHER_EXAMPLE_FOURTH.to_owned();
        let qa_5 = WEATHER_EXAMPLE_FIFTH.to_owned();
        let result = [qa_1, qa_2, qa_3, qa_4, qa_5];
        assert(example_texts(result@) =~= weather_examples());
        result
    }
}

} // verus!
