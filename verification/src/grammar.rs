use vstd::prelude::*;
use crate::calendar::{CaptureDate, CaptureTime};
use crate::error::{AppError, Failure};
use crate::fields::{
    date_of, date_reading, date_slot, names_second, read_date, read_time, slot_view,
    slots_from_readings, time_of, time_reading, time_slot, FieldSlots, SECOND_COMPONENT,
};
use crate::matcher::{
    title_fits, tokens_from_captures, tokens_of, tokens_view, RawTokens, TokensModel,
};
use crate::pattern::{capture_groups, regex_captures, regex_compiles, regex_pattern, regex_plain};
use crate::text::{contains, contains_text, occurs_at};
use crate::videoclip::ClipProgram;

verus! {

/// Marker of the replay filenames, such as
/// `MONSTER HUNTER RISE_replay_2023.06.12-01.15.mp4`.
pub const AMD_MARKER: &'static str = "_replay_";

/// Marker of the recorder filenames, such as
/// `Monster Hunter Rise 2023.06.11 - 00.31.42.02.DVR.mp4`.
pub const NVIDIA_MARKER: &'static str = ".DVR.";

/// Pattern of the replay filenames: title, marker, date, a hyphen, hour and minute.
pub const AMD_PATTERN: &'static str = r"^(.*)_replay_(.*)-([0-9]{2}\.[0-9]{2})\.mp4$";

/// Pattern of the recorder filenames: title, date, a hyphen between spaces, time to
/// the second, and a two-digit counter that is not read.
pub const NVIDIA_PATTERN: &'static str =
    r"^(.*) ([0-9]{4}.[0-9]{2}.[0-9]{2}) - (.*)\.([0-9]{2})\.DVR\.mp4$";

/// Year, month and day, each of fixed width, with dots between them.
pub const DATE_FORMAT: &'static str = "[year].[month].[day]";

/// Hour, minute and second, each of two digits, with dots between them.
pub const TIME_FORMAT_SECONDS: &'static str = "[hour].[minute].[second]";

/// Hour and minute, each of two digits, with a dot between them; the second is zero.
pub const TIME_FORMAT_MINUTES: &'static str = "[hour].[minute]";

/// What a grammar says: how to recognise a filename of one capture program and how to
/// take it apart.
pub struct GrammarModel {
    /// The program that writes such filenames.
    pub program: ClipProgram,
    /// The text whose presence in a filename signals the grammar.
    pub marker: Seq<char>,
    /// The regular expression that a filename must match from its first character to
    /// its last; its first three groups capture the title, with which the filename
    /// begins, the date token and the time token.
    pub pattern: Seq<char>,
    /// How the date token is laid out.
    pub date_format: Seq<char>,
    /// How the time token is laid out.
    pub time_format: Seq<char>,
}

/// The grammar of each known capture program.
pub open spec fn grammar_of(program: ClipProgram) -> GrammarModel {
    match program {
        ClipProgram::Nvidia => GrammarModel {
            program,
            marker: NVIDIA_MARKER@,
            pattern: NVIDIA_PATTERN@,
            date_format: DATE_FORMAT@,
            time_format: TIME_FORMAT_SECONDS@,
        },
        ClipProgram::AMD => GrammarModel {
            program,
            marker: AMD_MARKER@,
            pattern: AMD_PATTERN@,
            date_format: DATE_FORMAT@,
            time_format: TIME_FORMAT_MINUTES@,
        },
    }
}

/// The known programs in the order in which their markers are tried: a filename
/// that carries the markers of several is given to the one that stands first.
pub open spec fn precedence() -> Seq<ClipProgram> {
    seq![ClipProgram::AMD, ClipProgram::Nvidia]
}

/// The grammars of the given programs, in the same order.
pub open spec fn grammars_of(programs: Seq<ClipProgram>) -> Seq<GrammarModel> {
    Seq::new(programs.len(), |i: int| grammar_of(programs[i]))
}

/// The known grammars in the order in which their markers are tried.
pub open spec fn standard_grammars() -> Seq<GrammarModel> {
    grammars_of(precedence())
}

/// The pattern of the first of the given programs whose pattern is not a regular
/// expression, if there is one.
pub open spec fn first_bad_pattern(programs: Seq<ClipProgram>) -> Option<Seq<char>>
    decreases programs.len(),
{
    if programs.len() == 0 {
        None
    } else if !regex_compiles(grammar_of(programs[0]).pattern) {
        Some(grammar_of(programs[0]).pattern)
    } else {
        first_bad_pattern(programs.drop_first())
    }
}

/// The first grammar, in the order given, whose marker occurs in the filename.
pub open spec fn detect_grammar(grammars: Seq<GrammarModel>, name: Seq<char>) -> Option<
    GrammarModel,
>
    decreases grammars.len(),
{
    if grammars.len() == 0 {
        None
    } else if contains_text(name, grammars[0].marker) {
        Some(grammars[0])
    } else {
        detect_grammar(grammars.drop_first(), name)
    }
}

/// The grammar picked for a filename is the first whose marker occurs in it: its
/// marker occurs, and the marker of no grammar before it does. None is picked exactly
/// when no marker occurs.
pub proof fn lemma_detect_first(grammars: Seq<GrammarModel>, name: Seq<char>)
    ensures
        match detect_grammar(grammars, name) {
            Some(grammar) => exists|i: int|
                0 <= i < grammars.len() && #[trigger] grammars[i] == grammar && contains_text(
                    name,
                    grammar.marker,
                ) && forall|j: int| 0 <= j < i ==> !contains_text(name, #[trigger] grammars[j].marker),
            None => forall|j: int|
                0 <= j < grammars.len() ==> !contains_text(name, #[trigger] grammars[j].marker),
        },
    decreases grammars.len(),
{
    if grammars.len() > 0 && !contains_text(name, grammars[0].marker) {
        let rest = grammars.drop_first();
        lemma_detect_first(rest, name);
        match detect_grammar(rest, name) {
            Some(grammar) => {
                let i = choose|i: int|
                    0 <= i < rest.len() && #[trigger] rest[i] == grammar && contains_text(
                        name,
                        grammar.marker,
                    ) && forall|j: int| 0 <= j < i ==> !contains_text(name, #[trigger] rest[j].marker);
                assert(grammars[i + 1] == grammar);
                assert forall|j: int| 0 <= j < i + 1 implies !contains_text(
                    name,
                    #[trigger] grammars[j].marker,
                ) by {
                    if j > 0 {
                        assert(grammars[j] == rest[j - 1]);
                    }
                }
            },
            None => {
                assert forall|j: int| 0 <= j < grammars.len() implies !contains_text(
                    name,
                    #[trigger] grammars[j].marker,
                ) by {
                    if j > 0 {
                        assert(grammars[j] == rest[j - 1]);
                    }
                }
            },
        }
    } else if grammars.len() > 0 {
        assert(grammars[0] == detect_grammar(grammars, name)->Some_0);
    }
}

/// Precedence among the known grammars: a filename in which the replay marker occurs
/// is given to the grammar of the program that writes it, whether or not the marker
/// of the other program occurs in it too.
pub proof fn lemma_replay_marker_wins(name: Seq<char>)
    requires
        contains_text(name, AMD_MARKER@),
    ensures
        detect_grammar(standard_grammars(), name) == Some(grammar_of(ClipProgram::AMD)),
{
}

/// A filename with the recorder marker and without the replay marker is given to the
/// grammar of the program that writes the recorder marker.
pub proof fn lemma_recorder_marker_second(name: Seq<char>)
    requires
        !contains_text(name, AMD_MARKER@),
        contains_text(name, NVIDIA_MARKER@),
    ensures
        detect_grammar(standard_grammars(), name) == Some(grammar_of(ClipProgram::Nvidia)),
{
    let rest = standard_grammars().drop_first();
    assert(detect_grammar(rest, name) == Some(rest[0]));
}

/// A filename with neither marker is given to no grammar.
pub proof fn lemma_no_marker_no_grammar(name: Seq<char>)
    requires
        !contains_text(name, AMD_MARKER@),
        !contains_text(name, NVIDIA_MARKER@),
    ensures
        detect_grammar(standard_grammars(), name) is None,
{
    lemma_detect_first(standard_grammars(), name);
}

/// The tokens that a grammar's pattern takes out of a filename, or why it takes none.
pub open spec fn match_outcome(grammar: GrammarModel, name: Seq<char>) -> Result<
    TokensModel,
    Failure,
> {
    tokens_of(grammar.program, name, regex_captures(grammar.pattern, name))
}

/// The date slot that a grammar fills from the tokens of a filename.
pub open spec fn date_outcome(grammar: GrammarModel, name: Seq<char>, tokens: TokensModel) -> Result<
    CaptureDate,
    Failure,
> {
    date_slot(name, tokens.date, date_of(date_reading(grammar.date_format, tokens.date)))
}

/// The time slot that a grammar fills from the tokens of a filename.
pub open spec fn time_outcome(grammar: GrammarModel, name: Seq<char>, tokens: TokensModel) -> Result<
    CaptureTime,
    Failure,
> {
    time_slot(
        name,
        tokens.time,
        time_of(grammar.time_format, time_reading(grammar.time_format, tokens.time)),
    )
}

/// The time format of the replay filenames names no second: a time read by it is on
/// the full minute.
pub proof fn lemma_minutes_format_names_no_second()
    ensures
        !names_second(TIME_FORMAT_MINUTES@),
        !names_second(grammar_of(ClipProgram::AMD).time_format),
{
    reveal_strlit("[hour].[minute]");
    reveal_strlit("second");
    let format = TIME_FORMAT_MINUTES@;
    let word = SECOND_COMPONENT@;
    assert forall|at: int| !occurs_at(format, word, at) by {
        if occurs_at(format, word, at) {
            assert(format.subrange(at, at + word.len())[0] == word[0]);
            assert(format[at] == 's');
        }
    }
}

/// A grammar with its pattern compiled.
pub struct Grammar {
    program: ClipProgram,
    marker: String,
    pattern: regex::Regex,
    date_format: String,
    time_format: String,
}

impl View for Grammar {
    type V = GrammarModel;

    closed spec fn view(&self) -> GrammarModel {
        GrammarModel {
            program: self.program,
            marker: self.marker@,
            pattern: regex_pattern(self.pattern),
            date_format: self.date_format@,
            time_format: self.time_format@,
        }
    }
}

impl Grammar {
    #[verifier::type_invariant]
    spec fn compiled_plainly(self) -> bool {
        regex_plain(self.pattern)
    }

    /// Builds a grammar, compiling its pattern. Fails exactly when the pattern is not
    /// a regular expression, and then hands the pattern's text back.
    pub fn new(
        program: ClipProgram,
        marker: &str,
        pattern: &str,
        date_format: &str,
        time_format: &str,
    ) -> (r: Result<Grammar, AppError>)
        ensures
            match r {
                Ok(grammar) => regex_compiles(pattern@) && grammar@ == (GrammarModel {
                    program,
                    marker: marker@,
                    pattern: pattern@,
                    date_format: date_format@,
                    time_format: time_format@,
                }),
                Err(e) => !regex_compiles(pattern@) && e@ == Failure::InvalidPattern(pattern@),
            },
    {
        match regex::Regex::new(pattern) {
            Ok(compiled) => Ok(
                Grammar {
                    program,
                    marker: marker.to_owned(),
                    pattern: compiled,
                    date_format: date_format.to_owned(),
                    time_format: time_format.to_owned(),
                },
            ),
            Err(_) => Err(AppError::InvalidPattern(pattern.to_owned())),
        }
    }

    /// The program that writes filenames of this grammar.
    pub fn program(&self) -> (r: ClipProgram)
        ensures
            r == self@.program,
    {
        self.program
    }

    /// The text whose presence signals this grammar.
    pub fn marker(&self) -> (r: &str)
        ensures
            r@ == self@.marker,
    {
        self.marker.as_str()
    }

    /// The regular expression that a filename must match.
    pub fn pattern(&self) -> (r: &str)
        ensures
            r@ == self@.pattern,
    {
        self.pattern.as_str()
    }

    /// How the date token is laid out.
    pub fn date_format(&self) -> (r: &str)
        ensures
            r@ == self@.date_format,
    {
        self.date_format.as_str()
    }

    /// How the time token is laid out.
    pub fn time_format(&self) -> (r: &str)
        ensures
            r@ == self@.time_format,
    {
        self.time_format.as_str()
    }

    /// Holds the whole filename against the grammar's pattern and takes out the title,
    /// date and time tokens. A filename that the pattern does not match is a mismatch
    /// with this grammar.
    pub fn match_tokens(&self, filename: &str) -> (r: Result<RawTokens, AppError>)
        ensures
            tokens_view(r) == match_outcome(self@, filename@),
            r matches Ok(tokens) ==> title_fits(filename@, tokens.title@),
    {
        proof {
            use_type_invariant(self);
        }
        let captures = capture_groups(&self.pattern, filename);
        tokens_from_captures(self.program, filename, &captures)
    }

    /// Reads the date token and the time token of a filename, each by the grammar's
    /// format for it and each into a slot of its own.
    pub fn parse_fields(&self, filename: &str, tokens: &RawTokens) -> (r: FieldSlots)
        ensures
            slot_view(r.date) == date_outcome(self@, filename@, tokens@),
            slot_view(r.time) == time_outcome(self@, filename@, tokens@),
            r.date matches Ok(d) ==> d.is_valid(),
            r.time matches Ok(t) ==> t.is_valid() && (names_second(self@.time_format) || t.second
                == 0),
    {
        let date = read_date(self.date_format.as_str(), tokens.date.as_str());
        let time = read_time(self.time_format.as_str(), tokens.time.as_str());
        slots_from_readings(
            filename,
            tokens.date.as_str(),
            date,
            self.time_format.as_str(),
            tokens.time.as_str(),
            time,
        )
    }

    /// Whether the grammar's marker occurs in the filename.
    pub fn applies_to(&self, filename: &str) -> (b: bool)
        ensures
            b == contains_text(filename@, self@.marker),
    {
        contains(filename, self.marker.as_str())
    }
}

impl ClipProgram {
    /// The grammar of this program, compiled.
    pub fn grammar(self) -> (r: Result<Grammar, AppError>)
        ensures
            match r {
                Ok(grammar) => regex_compiles(grammar_of(self).pattern) && grammar@ == grammar_of(
                    self,
                ),
                Err(e) => !regex_compiles(grammar_of(self).pattern) && e@
                    == Failure::InvalidPattern(grammar_of(self).pattern),
            },
    {
        match self {
            ClipProgram::Nvidia => Grammar::new(
                self,
                NVIDIA_MARKER,
                NVIDIA_PATTERN,
                DATE_FORMAT,
                TIME_FORMAT_SECONDS,
            ),
            ClipProgram::AMD => Grammar::new(
                self,
                AMD_MARKER,
                AMD_PATTERN,
                DATE_FORMAT,
                TIME_FORMAT_MINUTES,
            ),
        }
    }
}

/// The grammars that filenames are held against, in the order in which their markers
/// are tried.
pub struct GrammarRegistry {
    grammars: Vec<Grammar>,
}

impl View for GrammarRegistry {
    type V = Seq<GrammarModel>;

    closed spec fn view(&self) -> Seq<GrammarModel> {
        Seq::new(self.grammars@.len(), |i: int| self.grammars@[i]@)
    }
}

impl GrammarRegistry {
    /// The registry of the known grammars. Fails exactly when one of their patterns
    /// is not a regular expression, with the first such pattern.
    pub fn new() -> (r: Result<GrammarRegistry, AppError>)
        ensures
            match first_bad_pattern(precedence()) {
                Some(pattern) => r is Err && r->Err_0@ == Failure::InvalidPattern(pattern),
                None => r is Ok && r->Ok_0@ == standard_grammars(),
            },
    {
        let mut programs: Vec<ClipProgram> = Vec::new();
        programs.push(ClipProgram::AMD);
        programs.push(ClipProgram::Nvidia);
        assert(programs@ =~= precedence());
        GrammarRegistry::for_programs(&programs)
    }

    /// The registry of the grammars of the given programs, tried in the order given.
    /// Fails exactly when one of their patterns is not a regular expression, with the
    /// first such pattern.
    pub fn for_programs(programs: &Vec<ClipProgram>) -> (r: Result<GrammarRegistry, AppError>)
        ensures
            match first_bad_pattern(programs@) {
                Some(pattern) => r is Err && r->Err_0@ == Failure::InvalidPattern(pattern),
                None => r is Ok && r->Ok_0@ == grammars_of(programs@),
            },
    {
        let mut grammars: Vec<Grammar> = Vec::new();
        let mut i: usize = 0;
        assert(programs@.skip(0) =~= programs@);
        while i < programs.len()
            invariant
                i <= programs.len(),
                grammars@.len() == i,
                forall|j: int| 0 <= j < i ==> (#[trigger] grammars@[j])@ == grammar_of(programs@[j]),
                first_bad_pattern(programs@) == first_bad_pattern(programs@.skip(i as int)),
            decreases programs.len() - i,
        {
            assert(programs@.skip(i as int).drop_first() =~= programs@.skip(i + 1));
            match programs[i].grammar() {
                Ok(grammar) => {
                    grammars.push(grammar);
                },
                Err(e) => {
                    return Err(e);
                },
            }
            i += 1;
        }
        let registry = GrammarRegistry { grammars };
        assert(registry@ =~= grammars_of(programs@));
        Ok(registry)
    }

    /// A registry of the given grammars, tried in the order given.
    pub fn from_grammars(grammars: Vec<Grammar>) -> (r: GrammarRegistry)
        ensures
            r@.len() == grammars@.len(),
            forall|i: int| 0 <= i < grammars@.len() ==> r@[i] == (#[trigger] grammars@[i])@,
    {
        GrammarRegistry { grammars }
    }

    /// Number of grammars held.
    pub fn len(&self) -> (n: usize)
        ensures
            n == self@.len(),
    {
        self.grammars.len()
    }

    /// Picks the grammar for a filename: the first, in the registry's order, whose
    /// marker occurs in it. Where none does, the filename is reported as of unknown
    /// format.
    pub fn detect(&self, filename: &str) -> (r: Result<&Grammar, AppError>)
        ensures
            match detect_grammar(self@, filename@) {
                Some(grammar) => r is Ok && r->Ok_0@ == grammar,
                None => r is Err && r->Err_0@ == Failure::UnknownFormat(filename@),
            },
    {
        let mut i: usize = 0;
        assert(self@.skip(0) =~= self@);
        while i < self.grammars.len()
            invariant
                i <= self.grammars.len(),
                detect_grammar(self@, filename@) == detect_grammar(self@.skip(i as int), filename@),
            decreases self.grammars.len() - i,
        {
            assert(self@.skip(i as int).drop_first() =~= self@.skip(i + 1));
            if self.grammars[i].applies_to(filename) {
                return Ok(&self.grammars[i]);
            }
            i += 1;
        }
        Err(AppError::UnknownFormat(filename.to_owned()))
    }
}

} // verus!
