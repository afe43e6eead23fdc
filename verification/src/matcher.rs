use vstd::prelude::*;
use crate::error::{AppError, Failure};
use crate::text::{begins_with, same_text, starts_with};
use crate::videoclip::ClipProgram;

verus! {

pub const TITLE_FIELD: &'static str = "source_name";

pub const DATE_FIELD: &'static str = "date";

pub const TIME_FIELD: &'static str = "time";

/// The three texts that a grammar's pattern captures from a filename.
pub struct TokensModel {
    pub title: Seq<char>,
    pub date: Seq<char>,
    pub time: Seq<char>,
}

/// The raw title, date and time tokens of a filename, before any of them is read.
#[derive(Debug, PartialEq, Eq)]
pub struct RawTokens {
    pub title: String,
    pub date: String,
    pub time: String,
}

impl View for RawTokens {
    type V = TokensModel;

    open spec fn view(&self) -> TokensModel {
        TokensModel { title: self.title@, date: self.date@, time: self.time@ }
    }
}

/// What the capture group with the given number holds: nothing where the pattern has
/// no such group, and nothing where the group took no part in the match.
pub open spec fn slot(groups: Seq<Option<Seq<char>>>, number: int) -> Option<Seq<char>> {
    if 0 <= number < groups.len() {
        groups[number]
    } else {
        None
    }
}

/// The match spans the filename from its first character to its last: the group with
/// the number 0, which holds the whole match, holds the whole filename.
pub open spec fn spans_whole(groups: Seq<Option<Seq<char>>>, name: Seq<char>) -> bool {
    slot(groups, 0) == Some(name)
}

/// A title is one that a clip can have: it is not empty, and the filename begins
/// with it.
pub open spec fn title_fits(name: Seq<char>, title: Seq<char>) -> bool {
    title.len() > 0 && begins_with(name, title)
}

/// The tokens that a match of a grammar's pattern yields for a filename, or the
/// failure that stands in their place. No match at all, or one that does not span the
/// whole filename, is a mismatch with the grammar that the marker announced. Then a
/// match that leaves the first, second or third group empty misses the title, the date
/// or the time, reported in that order. Last, a title that is empty, or with which the
/// filename does not begin, is a mismatch again: the filename lacks the structure of
/// the grammar.
pub open spec fn tokens_of(
    program: ClipProgram,
    name: Seq<char>,
    captures: Option<Seq<Option<Seq<char>>>>,
) -> Result<TokensModel, Failure> {
    match captures {
        None => Err(Failure::GrammarMismatch(name, program)),
        Some(groups) => if !spans_whole(groups, name) {
            Err(Failure::GrammarMismatch(name, program))
        } else {
            match (slot(groups, 1), slot(groups, 2), slot(groups, 3)) {
                (None, _, _) => Err(Failure::MissingField(TITLE_FIELD@, name)),
                (Some(_), None, _) => Err(Failure::MissingField(DATE_FIELD@, name)),
                (Some(_), Some(_), None) => Err(Failure::MissingField(TIME_FIELD@, name)),
                (Some(title), Some(date), Some(time)) => if title_fits(name, title) {
                    Ok(TokensModel { title, date, time })
                } else {
                    Err(Failure::GrammarMismatch(name, program))
                },
            }
        },
    }
}

/// Tokens come out only with a title that is not empty and begins the filename, and
/// only of a match that spans the whole filename.
pub proof fn lemma_tokens_fit(
    program: ClipProgram,
    name: Seq<char>,
    captures: Option<Seq<Option<Seq<char>>>>,
)
    requires
        tokens_of(program, name, captures) is Ok,
    ensures
        title_fits(name, tokens_of(program, name, captures)->Ok_0.title),
        captures matches Some(groups) && spans_whole(groups, name) && slot(groups, 1) == Some(
            tokens_of(program, name, captures)->Ok_0.title,
        ) && slot(groups, 2) == Some(tokens_of(program, name, captures)->Ok_0.date) && slot(
            groups,
            3,
        ) == Some(tokens_of(program, name, captures)->Ok_0.time),
{
}

/// Tokens or failure, each seen as what it says.
pub open spec fn tokens_view(r: Result<RawTokens, AppError>) -> Result<TokensModel, Failure> {
    match r {
        Ok(tokens) => Ok(tokens@),
        Err(e) => Err(e@),
    }
}

/// A copy of what the capture group with the given number holds.
pub fn take_slot(groups: &Vec<Option<String>>, number: usize) -> (r: Option<String>)
    ensures
        r.deep_view() == slot(groups.deep_view(), number as int),
{
    if number < groups.len() {
        match &groups[number] {
            Some(text) => Some(text.clone()),
            None => None,
        }
    } else {
        None
    }
}

/// Whether the match spans the whole filename.
pub fn match_spans_whole(groups: &Vec<Option<String>>, filename: &str) -> (b: bool)
    ensures
        b == spans_whole(groups.deep_view(), filename@),
{
    match take_slot(groups, 0) {
        Some(whole) => same_text(whole.as_str(), filename),
        None => false,
    }
}

/// Whether a clip of this filename can have this title.
pub fn title_is_fit(filename: &str, title: &str) -> (b: bool)
    ensures
        b == title_fits(filename@, title@),
{
    !title.is_empty() && starts_with(filename, title)
}

/// Takes the title, date and time tokens of `filename` out of what the pattern of the
/// program's grammar captured in it.
pub fn tokens_from_captures(
    program: ClipProgram,
    filename: &str,
    captures: &Option<Vec<Option<String>>>,
) -> (r: Result<RawTokens, AppError>)
    ensures
        tokens_view(r) == tokens_of(program, filename@, captures.deep_view()),
        r matches Ok(tokens) ==> title_fits(filename@, tokens.title@),
{
    match captures {
        None => Err(AppError::GrammarMismatch(filename.to_owned(), program)),
        Some(groups) => {
            if !match_spans_whole(groups, filename) {
                return Err(AppError::GrammarMismatch(filename.to_owned(), program));
            }
            let title = match take_slot(groups, 1) {
                Some(text) => text,
                None => {
                    return Err(
                        AppError::MissingField(TITLE_FIELD.to_owned(), filename.to_owned()),
                    );
                },
            };
            let date = match take_slot(groups, 2) {
                Some(text) => text,
                None => {
                    return Err(AppError::MissingField(DATE_FIELD.to_owned(), filename.to_owned()));
                },
            };
            let time = match take_slot(groups, 3) {
                Some(text) => text,
                None => {
                    return Err(AppError::MissingField(TIME_FIELD.to_owned(), filename.to_owned()));
                },
            };
            if !title_is_fit(filename, title.as_str()) {
                return Err(AppError::GrammarMismatch(filename.to_owned(), program));
            }
            Ok(RawTokens { title, date, time })
        },
    }
}

} // verus!
