//! From the cells of a results table to box scores.
//!
//! A data row of the results table lists, in this order, the date, the away
//! team, the away score, the home team and the home score. The date and the
//! team names stand in a nested element of their cell, the label; the scores
//! are the text of their cell.

use crate::boxscore::{BoxScore, BoxScoreView};
use crate::decimal::{parse_score, score_value};
use vstd::prelude::*;

verus! {

/// Why a page could not be turned into box scores.
#[derive(Debug, Clone, Copy, PartialEq, Eq, Structural)]
pub enum ParseError {
    /// One of the page's selectors was not accepted by the selector parser.
    InvalidSelector,
    /// A data row has fewer than five cells.
    MissingCell,
    /// The cell of a date or of a team name has no label inside it.
    MissingLabel,
    /// The text of a score cell is not a 32-bit integer in decimal notation.
    InvalidScore,
}

/// One cell of a data row, as far as the extraction reads it.
#[derive(Debug)]
pub struct Cell {
    /// All the text inside the cell.
    pub text: String,
    /// The text inside the cell's labels, joined in the order of the labels;
    /// `None` where the cell has no label.
    pub label: Option<String>,
}

/// What a `Cell` holds, as mathematical values.
pub ghost struct CellView {
    pub text: Seq<char>,
    pub label: Option<Seq<char>>,
}

impl View for Cell {
    type V = CellView;

    open spec fn view(&self) -> CellView {
        CellView {
            text: self.text@,
            label: match self.label {
                Some(label) => Some(label@),
                None => None,
            },
        }
    }
}

impl DeepView for Cell {
    type V = CellView;

    open spec fn deep_view(&self) -> CellView {
        self@
    }
}

/// The number of cells that a data row must have.
pub const ROW_CELLS: usize = 5;

/// The box score that a row of cells stands for, or the reason why it stands
/// for none. The first fault in the order of the cells decides, after the
/// number of cells.
pub open spec fn box_score_of(cells: Seq<CellView>) -> Result<BoxScoreView, ParseError> {
    if cells.len() < ROW_CELLS {
        Err(ParseError::MissingCell)
    } else if cells[0].label is None || cells[1].label is None {
        Err(ParseError::MissingLabel)
    } else if score_value(cells[2].text) is None {
        Err(ParseError::InvalidScore)
    } else if cells[3].label is None {
        Err(ParseError::MissingLabel)
    } else if score_value(cells[4].text) is None {
        Err(ParseError::InvalidScore)
    } else {
        Ok(
            BoxScoreView {
                date: cells[0].label->0,
                away_team: cells[1].label->0,
                away_score: score_value(cells[2].text)->0,
                home_team: cells[3].label->0,
                home_score: score_value(cells[4].text)->0,
            },
        )
    }
}

/// Whether `outcome` is what the rows give: a box score for every row, in the
/// order of the rows, or else the fault of the first row that has one.
pub open spec fn is_outcome_of(
    outcome: Result<Seq<BoxScoreView>, ParseError>,
    rows: Seq<Seq<CellView>>,
) -> bool {
    match outcome {
        Ok(scores) => {
            &&& scores.len() == rows.len()
            &&& forall|i: int|
                0 <= i < rows.len() ==> box_score_of(#[trigger] rows[i]) == Ok::<
                    BoxScoreView,
                    ParseError,
                >(scores[i])
        },
        Err(fault) => exists|i: int|
            {
                &&& 0 <= i < rows.len()
                &&& box_score_of(#[trigger] rows[i]) == Err::<BoxScoreView, ParseError>(fault)
                &&& forall|j: int| 0 <= j < i ==> box_score_of(#[trigger] rows[j]) is Ok
            },
    }
}

/// What `scores` holds, as mathematical values, should the extraction have
/// succeeded.
pub open spec fn outcome_view(outcome: Result<Vec<BoxScore>, ParseError>) -> Result<
    Seq<BoxScoreView>,
    ParseError,
> {
    match outcome {
        Ok(scores) => Ok(scores.deep_view()),
        Err(fault) => Err(fault),
    }
}

/// The label of a cell, copied.
fn label_text(cell: &Cell) -> (label: Option<String>)
    ensures
        match label {
            Some(text) => cell@.label == Some(text@),
            None => cell@.label is None,
        },
{
    match &cell.label {
        Some(text) => Some(text.clone()),
        None => None,
    }
}

/// Builds the box score of one data row from its cells.
pub fn parse_box_score(cells: &Vec<Cell>) -> (outcome: Result<BoxScore, ParseError>)
    ensures
        match outcome {
            Ok(score) => box_score_of(cells.deep_view()) == Ok::<BoxScoreView, ParseError>(score@),
            Err(fault) => box_score_of(cells.deep_view()) == Err::<BoxScoreView, ParseError>(
                fault,
            ),
        },
{
    if cells.len() < ROW_CELLS {
        return Err(ParseError::MissingCell);
    }
    let ghost row = cells.deep_view();
    assert(row[0] == cells[0]@ && row[1] == cells[1]@ && row[2] == cells[2]@ && row[3]
        == cells[3]@ && row[4] == cells[4]@);
    let date = match label_text(&cells[0]) {
        Some(text) => text,
        None => { return Err(ParseError::MissingLabel); },
    };
    let away_team = match label_text(&cells[1]) {
        Some(text) => text,
        None => { return Err(ParseError::MissingLabel); },
    };
    let away_score = match parse_score(cells[2].text.as_str()) {
        Some(score) => score,
        None => { return Err(ParseError::InvalidScore); },
    };
    let home_team = match label_text(&cells[3]) {
        Some(text) => text,
        None => { return Err(ParseError::MissingLabel); },
    };
    let home_score = match parse_score(cells[4].text.as_str()) {
        Some(score) => score,
        None => { return Err(ParseError::InvalidScore); },
    };
    Ok(BoxScore::from_properties(date, away_team, away_score, home_team, home_score))
}

/// Builds the box scores of a sequence of data rows, one for each row and in
/// the order of the rows. The first row that has a fault ends the work, and
/// its fault is the outcome.
pub fn parse_rows(rows: &Vec<Vec<Cell>>) -> (outcome: Result<Vec<BoxScore>, ParseError>)
    ensures
        is_outcome_of(outcome_view(outcome), rows.deep_view()),
{
    let ghost all = rows.deep_view();
    let mut scores: Vec<BoxScore> = Vec::new();
    let mut i: usize = 0;
    while i < rows.len()
        invariant
            all == rows.deep_view(),
            0 <= i <= rows.len(),
            scores.len() == i,
            forall|j: int|
                0 <= j < i ==> box_score_of(#[trigger] all[j]) == Ok::<BoxScoreView, ParseError>(
                    scores[j]@,
                ),
        decreases rows.len() - i,
    {
        assert(all[i as int] == rows[i as int].deep_view());
        match parse_box_score(&rows[i]) {
            Ok(score) => {
                scores.push(score);
            },
            Err(fault) => {
                assert(is_outcome_of(Err(fault), all)) by {
                    assert(box_score_of(all[i as int]) == Err::<BoxScoreView, ParseError>(fault));
                }
                return Err(fault);
            },
        }
        i = i + 1;
    }
    assert(is_outcome_of(Ok(scores.deep_view()), all)) by {
        assert forall|j: int| 0 <= j < all.len() implies box_score_of(#[trigger] all[j]) == Ok::<
            BoxScoreView,
            ParseError,
        >(scores.deep_view()[j]) by {
            assert(scores.deep_view()[j] == scores[j]@);
        }
    }
    Ok(scores)
}

} // verus!
