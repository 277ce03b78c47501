//! Writing box scores out: one line for each, or a JSON document.

use crate::boxscore::{line_of, BoxScore, BoxScoreView};
use crate::cli::{format_of, OutputFormat, JSON_FORMAT};
use crate::json::{
    array_value, json_array, json_number, json_object, json_string, number_value, object_value,
    pretty_text, string_value, write_pretty,
};
use serde_json::Value;
use vstd::prelude::*;
use vstd::string::StringExecFns;

verus! {

/// The key of the date in a JSON object.
pub const DATE_KEY: &'static str = "date";

/// The key of the away team's name.
pub const AWAY_TEAM_KEY: &'static str = "away_team";

/// The key of the away team's score.
pub const AWAY_SCORE_KEY: &'static str = "away_score";

/// The key of the home team's name.
pub const HOME_TEAM_KEY: &'static str = "home_team";

/// The key of the home team's score.
pub const HOME_SCORE_KEY: &'static str = "home_score";

/// Why a rendering failed.
#[derive(Debug, Clone, Copy, PartialEq, Eq, Structural)]
pub enum RenderError {
    /// The JSON writer gave up.
    Json,
}

/// The given lines with a line feed between each two of them, and none at
/// the end.
pub open spec fn joined_lines(lines: Seq<Seq<char>>) -> Seq<char>
    decreases lines.len(),
{
    if lines.len() == 0 {
        Seq::empty()
    } else if lines.len() == 1 {
        lines[0]
    } else {
        joined_lines(lines.drop_last()) + seq!['\n'] + lines.last()
    }
}

/// The default rendering: the line of each box score, in their order, joined
/// by line feeds.
pub open spec fn default_text(scores: Seq<BoxScoreView>) -> Seq<char> {
    joined_lines(scores.map_values(|score: BoxScoreView| line_of(score)))
}

/// The JSON object of one box score: its five fields under their keys, in
/// the order in which the results page lists them.
pub open spec fn json_record(score: BoxScoreView) -> Value {
    json_object(
        seq![
            (DATE_KEY@, json_string(score.date)),
            (AWAY_TEAM_KEY@, json_string(score.away_team)),
            (AWAY_SCORE_KEY@, json_number(score.away_score)),
            (HOME_TEAM_KEY@, json_string(score.home_team)),
            (HOME_SCORE_KEY@, json_number(score.home_score)),
        ],
    )
}

/// The JSON document of a sequence of box scores: the array of their
/// objects, in their order.
pub open spec fn json_document(scores: Seq<BoxScoreView>) -> Value {
    json_array(scores.map_values(|score: BoxScoreView| json_record(score)))
}

/// The rendering of a sequence of box scores in a format, or `None` where
/// the JSON writer gives no text.
pub open spec fn rendering(scores: Seq<BoxScoreView>, format: OutputFormat) -> Option<Seq<char>> {
    match format {
        OutputFormat::Default => Some(default_text(scores)),
        OutputFormat::Json => pretty_text(json_document(scores)),
    }
}

/// Every format selector but `json` gives the default rendering.
pub proof fn lemma_format_fallback(scores: Seq<BoxScoreView>, selector: Seq<char>)
    requires
        selector != JSON_FORMAT@,
    ensures
        rendering(scores, format_of(selector)) == rendering(scores, OutputFormat::Default),
        rendering(scores, format_of(selector)) == Some(default_text(scores)),
{
}

/// The default rendering of nothing is the empty text.
pub proof fn lemma_default_text_of_nothing()
    ensures
        default_text(Seq::empty()) == Seq::<char>::empty(),
{
    assert(Seq::<BoxScoreView>::empty().map_values(|score: BoxScoreView| line_of(score)).len()
        == 0);
}

/// The default rendering of one box score is its line, and each further box
/// score adds a line feed and its line.
pub proof fn lemma_default_text_step(scores: Seq<BoxScoreView>, next: BoxScoreView)
    ensures
        default_text(scores.push(next)) == if scores.len() == 0 {
            line_of(next)
        } else {
            default_text(scores) + seq!['\n'] + line_of(next)
        },
{
    let lines = scores.push(next).map_values(|score: BoxScoreView| line_of(score));
    assert(lines.last() == line_of(next));
    assert(lines.drop_last() =~= scores.map_values(|score: BoxScoreView| line_of(score)));
}

/// Renders box scores in the default format.
pub fn render_default(scores: &Vec<BoxScore>) -> (text: String)
    ensures
        text@ == default_text(scores.deep_view()),
{
    let ghost all = scores.deep_view();
    let mut text = String::new();
    let mut i: usize = 0;
    proof {
        lemma_default_text_of_nothing();
        assert(all.take(0) =~= Seq::<BoxScoreView>::empty());
    }
    while i < scores.len()
        invariant
            0 <= i <= scores.len(),
            all == scores.deep_view(),
            text@ == default_text(all.take(i as int)),
        decreases scores.len() - i,
    {
        let line = scores[i].to_string();
        proof {
            lemma_default_text_step(all.take(i as int), all[i as int]);
            assert(all.take(i + 1) =~= all.take(i as int).push(all[i as int]));
            assert(all[i as int] == scores[i as int]@);
        }
        if i > 0 {
            text.push('\n');
        }
        text.append(line.as_str());
        assert(text@ =~= default_text(all.take(i + 1)));
        i = i + 1;
    }
    assert(all.take(i as int) =~= all);
    text
}

/// The JSON object of one box score.
fn record_value(score: &BoxScore) -> (value: Value)
    ensures
        value == json_record(score@),
{
    let mut fields: Vec<(String, Value)> = Vec::new();
    fields.push((DATE_KEY.to_owned(), string_value(score.date())));
    fields.push((AWAY_TEAM_KEY.to_owned(), string_value(score.away_team())));
    fields.push((AWAY_SCORE_KEY.to_owned(), number_value(score.away_score())));
    fields.push((HOME_TEAM_KEY.to_owned(), string_value(score.home_team())));
    fields.push((HOME_SCORE_KEY.to_owned(), number_value(score.home_score())));
    assert(fields@.map_values(|field: (String, Value)| crate::json::field_view(field)) =~= seq![
        (DATE_KEY@, json_string(score@.date)),
        (AWAY_TEAM_KEY@, json_string(score@.away_team)),
        (AWAY_SCORE_KEY@, json_number(score@.away_score)),
        (HOME_TEAM_KEY@, json_string(score@.home_team)),
        (HOME_SCORE_KEY@, json_number(score@.home_score)),
    ]);
    object_value(fields)
}

/// Renders box scores as a JSON document in the indented layout of the JSON
/// writer.
pub fn render_json(scores: &Vec<BoxScore>) -> (text: Result<String, RenderError>)
    ensures
        match text {
            Ok(text) => pretty_text(json_document(scores.deep_view())) == Some(text@),
            Err(_) => pretty_text(json_document(scores.deep_view())) is None,
        },
{
    let ghost all = scores.deep_view();
    let mut items: Vec<Value> = Vec::new();
    let mut i: usize = 0;
    while i < scores.len()
        invariant
            0 <= i <= scores.len(),
            all == scores.deep_view(),
            items.len() == i,
            forall|j: int| 0 <= j < i ==> #[trigger] items[j] == json_record(all[j]),
        decreases scores.len() - i,
    {
        assert(all[i as int] == scores[i as int]@);
        items.push(record_value(&scores[i]));
        i = i + 1;
    }
    assert(items@ =~= all.map_values(|score: BoxScoreView| json_record(score)));
    let document = array_value(items);
    match write_pretty(&document) {
        Ok(text) => Ok(text),
        Err(_) => Err(RenderError::Json),
    }
}

/// Renders box scores in the given format. The default format always gives
/// a text; the JSON format gives the text that the JSON writer gives.
pub fn render(scores: &Vec<BoxScore>, format: OutputFormat) -> (text: Result<String, RenderError>)
    ensures
        match text {
            Ok(text) => rendering(scores.deep_view(), format) == Some(text@),
            Err(_) => rendering(scores.deep_view(), format) is None,
        },
        format == OutputFormat::Default ==> text is Ok,
{
    match format {
        OutputFormat::Json => render_json(scores),
        OutputFormat::Default => Ok(render_default(scores)),
    }
}

} // verus!
