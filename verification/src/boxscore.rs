//! The result of one game.

use crate::decimal::{decimal, push_decimal};
use vstd::prelude::*;
use vstd::string::StringExecFns;

verus! {

/// The result of one football game: its date as the results page displays it, the
/// two teams and their scores.
#[derive(Debug)]
pub struct BoxScore {
    date: String,
    away_team: String,
    away_score: i32,
    home_team: String,
    home_score: i32,
}

/// What a `BoxScore` holds, as mathematical values.
pub ghost struct BoxScoreView {
    pub date: Seq<char>,
    pub away_team: Seq<char>,
    pub away_score: int,
    pub home_team: Seq<char>,
    pub home_score: int,
}

impl View for BoxScore {
    type V = BoxScoreView;

    closed spec fn view(&self) -> BoxScoreView {
        BoxScoreView {
            date: self.date@,
            away_team: self.away_team@,
            away_score: self.away_score as int,
            home_team: self.home_team@,
            home_score: self.home_score as int,
        }
    }
}

impl DeepView for BoxScore {
    type V = BoxScoreView;

    open spec fn deep_view(&self) -> BoxScoreView {
        self@
    }
}

impl Clone for BoxScore {
    fn clone(&self) -> (copy: BoxScore)
        ensures
            copy@ == self@,
    {
        BoxScore {
            date: self.date.clone(),
            away_team: self.away_team.clone(),
            away_score: self.away_score,
            home_team: self.home_team.clone(),
            home_score: self.home_score,
        }
    }
}

impl BoxScore {
    /// A box score made of its five properties, given in the order in which
    /// the results page lists them: the away side first.
    pub fn from_properties(
        date: String,
        away_team: String,
        away_score: i32,
        home_team: String,
        home_score: i32,
    ) -> (score: BoxScore)
        ensures
            score@ == (BoxScoreView {
                date: date@,
                away_team: away_team@,
                away_score: away_score as int,
                home_team: home_team@,
                home_score: home_score as int,
            }),
    {
        BoxScore { date, away_team, away_score, home_team, home_score }
    }

    /// The date of the game, as the results page displays it.
    pub fn date(&self) -> (date: &str)
        ensures
            date@ == self@.date,
    {
        self.date.as_str()
    }

    /// The name of the away team.
    pub fn away_team(&self) -> (name: &str)
        ensures
            name@ == self@.away_team,
    {
        self.away_team.as_str()
    }

    /// The score of the away team.
    pub fn away_score(&self) -> (score: i32)
        ensures
            score == self@.away_score,
    {
        self.away_score
    }

    /// The name of the home team.
    pub fn home_team(&self) -> (name: &str)
        ensures
            name@ == self@.home_team,
    {
        self.home_team.as_str()
    }

    /// The score of the home team.
    pub fn home_score(&self) -> (score: i32)
        ensures
            score == self@.home_score,
    {
        self.home_score
    }

    /// The line that displays the box score, the home side first:
    /// `[date] home_team home_score - away_team away_score`.
    pub fn to_string(&self) -> (line: String)
        ensures
            line@ == line_of(self@),
    {
        let mut line = String::new();
        line.push('[');
        line.append(self.date.as_str());
        line.push(']');
        line.push(' ');
        line.append(self.home_team.as_str());
        line.push(' ');
        push_decimal(&mut line, self.home_score as i64);
        line.push(' ');
        line.push('-');
        line.push(' ');
        line.append(self.away_team.as_str());
        line.push(' ');
        push_decimal(&mut line, self.away_score as i64);
        assert(line@ =~= line_of(self@));
        line
    }
}

/// The line that displays a box score. The home side comes first, though the
/// results page lists the away side first.
pub open spec fn line_of(score: BoxScoreView) -> Seq<char> {
    seq!['['] + score.date + seq![']', ' '] + score.home_team + seq![' '] + decimal(
        score.home_score,
    ) + seq![' ', '-', ' '] + score.away_team + seq![' '] + decimal(score.away_score)
}

} // verus!
