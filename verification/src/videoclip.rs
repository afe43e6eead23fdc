use vstd::prelude::*;
use crate::calendar::{CaptureDate, CaptureTime};
use crate::error::{AppError, Failure};
use crate::fields::{names_second, slot_view, FieldSlots};
use crate::grammar::{
    date_outcome, detect_grammar, first_bad_pattern, grammar_of, lemma_detect_first,
    lemma_minutes_format_names_no_second, lemma_no_marker_no_grammar,
    lemma_recorder_marker_second, lemma_replay_marker_wins,
    match_outcome, precedence, standard_grammars, time_outcome, GrammarModel, GrammarRegistry,
    AMD_MARKER, AMD_PATTERN, NVIDIA_MARKER, NVIDIA_PATTERN,
};
use crate::matcher::{slot, spans_whole, title_fits, RawTokens, DATE_FIELD, TIME_FIELD};
use crate::pattern::regex_captures;
use crate::text::contains_text;

verus! {

/// The capture program whose filename grammar a clip follows.
#[derive(Clone, Copy, Debug, PartialEq, Eq, Structural)]
pub enum ClipProgram {
    /// Writes names such as `Monster Hunter Rise 2023.06.11 - 00.31.42.02.DVR.mp4`.
    Nvidia,
    /// Writes names such as `MONSTER HUNTER RISE_replay_2023.06.12-01.15.mp4`.
    AMD,
}

/// What a clip record says, with its title as a sequence of characters.
pub struct ClipModel {
    pub source_name: Seq<char>,
    pub date: CaptureDate,
    pub time: CaptureTime,
}

/// What a filename says of the clip it names: the title of what was captured, and the
/// day and the time of day of the capture.
#[derive(Debug, PartialEq, Eq)]
pub struct VideoClip {
    pub source_name: String,
    pub date: CaptureDate,
    pub time: CaptureTime,
}

impl View for VideoClip {
    type V = ClipModel;

    open spec fn view(&self) -> ClipModel {
        ClipModel { source_name: self.source_name@, date: self.date, time: self.time }
    }
}

/// A clip or a failure, each seen as what it says.
pub open spec fn outcome_view(r: Result<VideoClip, AppError>) -> Result<ClipModel, Failure> {
    match r {
        Ok(clip) => Ok(clip@),
        Err(e) => Err(e@),
    }
}

/// The record made of a title and the two field slots: the failure of the date slot
/// where it holds one, else that of the time slot, else the clip with the title as it
/// was captured.
pub open spec fn clip_of(
    title: Seq<char>,
    date: Result<CaptureDate, Failure>,
    time: Result<CaptureTime, Failure>,
) -> Result<ClipModel, Failure> {
    match (date, time) {
        (Err(e), _) => Err(e),
        (Ok(_), Err(e)) => Err(e),
        (Ok(date), Ok(time)) => Ok(ClipModel { source_name: title, date, time }),
    }
}

/// What a grammar makes of a filename that carries its marker: the stages follow one
/// another, and the first failure is the outcome.
pub open spec fn grammar_outcome(grammar: GrammarModel, name: Seq<char>) -> Result<
    ClipModel,
    Failure,
> {
    match match_outcome(grammar, name) {
        Err(e) => Err(e),
        Ok(tokens) => clip_of(
            tokens.title,
            date_outcome(grammar, name, tokens),
            time_outcome(grammar, name, tokens),
        ),
    }
}

/// What the grammars, tried in their order, make of a filename.
pub open spec fn parse_outcome(grammars: Seq<GrammarModel>, name: Seq<char>) -> Result<
    ClipModel,
    Failure,
> {
    match detect_grammar(grammars, name) {
        None => Err(Failure::UnknownFormat(name)),
        Some(grammar) => grammar_outcome(grammar, name),
    }
}

/// A filename in which the replay marker occurs is read by the grammar of the program
/// that writes it, and by no other, whether or not the recorder marker occurs too.
pub proof fn lemma_precedence(name: Seq<char>)
    requires
        contains_text(name, AMD_MARKER@),
    ensures
        parse_outcome(standard_grammars(), name) == grammar_outcome(
            grammar_of(ClipProgram::AMD),
            name,
        ),
{
    lemma_replay_marker_wins(name);
}

/// A filename is of unknown format exactly when the marker of no grammar occurs in
/// it; the failure then holds the filename.
pub proof fn lemma_unknown_format(grammars: Seq<GrammarModel>, name: Seq<char>)
    ensures
        (parse_outcome(grammars, name) matches Err(Failure::UnknownFormat(_))) <==> (forall|i: int|
            0 <= i < grammars.len() ==> !contains_text(name, #[trigger] grammars[i].marker)),
        parse_outcome(grammars, name) matches Err(Failure::UnknownFormat(file)) ==> file == name,
{
    lemma_detect_first(grammars, name);
}

/// With the known grammars, a filename with neither marker is of unknown format.
pub proof fn lemma_no_marker_is_unknown(name: Seq<char>)
    requires
        !contains_text(name, AMD_MARKER@),
        !contains_text(name, NVIDIA_MARKER@),
    ensures
        parse_outcome(standard_grammars(), name) == Err::<ClipModel, Failure>(
            Failure::UnknownFormat(name),
        ),
{
    lemma_no_marker_no_grammar(name);
}

/// A filename given to a grammar whose pattern does not match it is a mismatch with
/// that grammar, and never of unknown format.
pub proof fn lemma_mismatch(grammars: Seq<GrammarModel>, name: Seq<char>)
    requires
        detect_grammar(grammars, name) matches Some(grammar) && regex_captures(
            grammar.pattern,
            name,
        ) is None,
    ensures
        parse_outcome(grammars, name) == Err::<ClipModel, Failure>(
            Failure::GrammarMismatch(name, detect_grammar(grammars, name)->Some_0.program),
        ),
{
}

/// With the known grammars, a filename in which the recorder marker occurs and which
/// the recorder pattern does not match is a mismatch, unless the replay marker occurs
/// in it too and the replay pattern matches it.
pub proof fn lemma_recorder_mismatch(name: Seq<char>)
    requires
        contains_text(name, NVIDIA_MARKER@),
        regex_captures(NVIDIA_PATTERN@, name) is None,
        !(contains_text(name, AMD_MARKER@) && regex_captures(AMD_PATTERN@, name) is Some),
    ensures
        parse_outcome(standard_grammars(), name) matches Err(Failure::GrammarMismatch(file, _))
            && file == name,
{
    if contains_text(name, AMD_MARKER@) {
        lemma_replay_marker_wins(name);
    } else {
        lemma_recorder_marker_second(name);
    }
}

/// The stages of reading follow one another and the first that fails gives the one
/// failure: a mismatch or a missing field before anything is read, then the date, and
/// the time only where the date was read.
pub proof fn lemma_first_failure(grammar: GrammarModel, name: Seq<char>)
    ensures
        match match_outcome(grammar, name) {
            Err(e) => grammar_outcome(grammar, name) == Err::<ClipModel, Failure>(e),
            Ok(tokens) => match date_outcome(grammar, name, tokens) {
                Err(e) => grammar_outcome(grammar, name) == Err::<ClipModel, Failure>(e) && e
                    == Failure::FieldParseError(DATE_FIELD@, tokens.date, name),
                Ok(date) => match time_outcome(grammar, name, tokens) {
                    Err(e) => grammar_outcome(grammar, name) == Err::<ClipModel, Failure>(e) && e
                        == Failure::FieldParseError(TIME_FIELD@, tokens.time, name),
                    Ok(time) => grammar_outcome(grammar, name) == Ok::<ClipModel, Failure>(
                        ClipModel { source_name: tokens.title, date, time },
                    ),
                },
            },
        },
{
}

/// A clip is one that the filename can name: its title is not empty and begins the
/// filename, its date is a day of the calendar and its time a moment of the clock.
pub open spec fn clip_fits(name: Seq<char>, clip: ClipModel) -> bool {
    title_fits(name, clip.source_name) && clip.date.is_valid() && clip.time.is_valid()
}

/// A clip that comes out of reading a filename fits the filename. It comes of a match
/// that spans the whole filename, and its title is the text of the first group of
/// the pattern of the grammar that the filename was given to, unchanged. Where the
/// time format of that grammar names no second, its time is on the full minute.
pub proof fn lemma_clip_is_valid(grammars: Seq<GrammarModel>, name: Seq<char>)
    requires
        parse_outcome(grammars, name) is Ok,
    ensures
        clip_fits(name, parse_outcome(grammars, name)->Ok_0),
        detect_grammar(grammars, name) matches Some(grammar) && regex_captures(
            grammar.pattern,
            name,
        ) matches Some(groups) && spans_whole(groups, name) && slot(groups, 1) == Some(
            parse_outcome(grammars, name)->Ok_0.source_name,
        ) && (names_second(grammar.time_format) || parse_outcome(grammars, name)->Ok_0.time.second
            == 0),
{
}

/// With the known grammars, the time of a clip whose filename holds the replay marker
/// is on the full minute.
pub proof fn lemma_replay_clip_on_full_minute(name: Seq<char>)
    requires
        contains_text(name, AMD_MARKER@),
        parse_outcome(standard_grammars(), name) is Ok,
    ensures
        parse_outcome(standard_grammars(), name)->Ok_0.time.second == 0,
{
    lemma_replay_marker_wins(name);
    lemma_minutes_format_names_no_second();
}

impl VideoClip {
    /// The title is not empty, the date exists in the calendar and the time on the
    /// clock.
    pub open spec fn wf(&self) -> bool {
        self.source_name@.len() > 0 && self.date.is_valid() && self.time.is_valid()
    }

    /// Separator put between the parts of a clip's name.
    pub fn format_name() -> (r: String)
        ensures
            r@ == "- "@,
    {
        "- ".to_owned()
    }

    /// Puts a record together from the tokens of a filename and its two field slots.
    pub fn assemble(tokens: RawTokens, slots: FieldSlots) -> (r: Result<VideoClip, AppError>)
        ensures
            outcome_view(r) == clip_of(tokens@.title, slot_view(slots.date), slot_view(slots.time)),
            r matches Ok(clip) ==> clip.date == slots.date->Ok_0 && clip.time == slots.time->Ok_0,
    {
        let date = match slots.date {
            Ok(date) => date,
            Err(e) => {
                return Err(e);
            },
        };
        let time = match slots.time {
            Ok(time) => time,
            Err(e) => {
                return Err(e);
            },
        };
        Ok(VideoClip { source_name: tokens.title, date, time })
    }

    /// Reads a filename by the known grammars. Where one of their patterns is not a
    /// regular expression, that pattern is the failure, whatever the filename.
    ///
    /// The grammars are compiled anew on every call: to read many filenames, build one
    /// [`GrammarRegistry`] and read each with [`GrammarRegistry::parse`].
    pub fn parse_name(filename: &str) -> (r: Result<VideoClip, AppError>)
        ensures
            outcome_view(r) == match first_bad_pattern(precedence()) {
                Some(pattern) => Err(Failure::InvalidPattern(pattern)),
                None => parse_outcome(standard_grammars(), filename@),
            },
            r matches Ok(clip) ==> clip.wf() && clip_fits(filename@, clip@) && (contains_text(
                filename@,
                AMD_MARKER@,
            ) ==> clip.time.second == 0),
    {
        match GrammarRegistry::new() {
            Ok(registry) => {
                let r = registry.parse(filename);
                proof {
                    if r is Ok && contains_text(filename@, AMD_MARKER@) {
                        lemma_replay_clip_on_full_minute(filename@);
                    }
                }
                r
            },
            Err(e) => Err(e),
        }
    }
}

impl GrammarRegistry {
    /// Reads a filename: picks its grammar, takes the tokens out, reads the date and
    /// the time, and puts the record together. The first stage that fails ends the
    /// reading and gives the one failure reported.
    pub fn parse(&self, filename: &str) -> (r: Result<VideoClip, AppError>)
        ensures
            outcome_view(r) == parse_outcome(self@, filename@),
            r matches Ok(clip) ==> clip.wf() && clip_fits(filename@, clip@) && (names_second(
                detect_grammar(self@, filename@)->Some_0.time_format,
            ) || clip.time.second == 0),
    {
        let grammar = match self.detect(filename) {
            Ok(grammar) => grammar,
            Err(e) => {
                return Err(e);
            },
        };
        let tokens = match grammar.match_tokens(filename) {
            Ok(tokens) => tokens,
            Err(e) => {
                return Err(e);
            },
        };
        let slots = grammar.parse_fields(filename, &tokens);
        VideoClip::assemble(tokens, slots)
    }
}

impl std::str::FromStr for VideoClip {
    type Err = AppError;

    /// Reads a filename by the known grammars, as [`VideoClip::parse_name`] does.
    fn from_str(s: &str) -> (r: Result<VideoClip, AppError>)
        ensures
            outcome_view(r) == match first_bad_pattern(precedence()) {
                Some(pattern) => Err(Failure::InvalidPattern(pattern)),
                None => parse_outcome(standard_grammars(), s@),
            },
            r matches Ok(clip) ==> clip.wf() && clip_fits(s@, clip@) && (contains_text(
                s@,
                AMD_MARKER@,
            ) ==> clip.time.second == 0),
    {
        VideoClip::parse_name(s)
    }
}

} // verus!
