//! Telling camera-on lines from camera-off lines.
//!
//! A line shows the camera in use when it contains the marker text that the
//! system writes while an application applies video effects. The search is
//! done by a compiled regular expression whose pattern spells the marker
//! with its meta characters escaped.

use regex::Regex;
use vstd::prelude::*;

use crate::status::CameraStatus;

verus! {

/// The text that a log line contains while an application uses the camera.
pub open spec fn marker() -> Seq<char> {
    "appEffects: [ControlCenterApp.AppVideoEffects"@
}

/// The regular expression that finds the marker.
pub open spec fn marker_pattern() -> Seq<char> {
    "appEffects: \\[ControlCenterApp\\.AppVideoEffects"@
}

/// `text` occurs in `line` as a run of consecutive characters.
pub open spec fn contains(line: Seq<char>, text: Seq<char>) -> bool {
    exists|start: int| occurs_at(line, text, start)
}

/// `text` occurs in `line` beginning at position `start`.
pub open spec fn occurs_at(line: Seq<char>, text: Seq<char>, start: int) -> bool {
    &&& 0 <= start
    &&& start + text.len() <= line.len()
    &&& line.subrange(start, start + text.len()) == text
}

/// All the lines in which `text` occurs.
pub open spec fn texts_containing(text: Seq<char>) -> Set<Seq<char>> {
    Set::new(|line: Seq<char>| contains(line, text))
}

/// Whether a line shows the camera in use.
pub open spec fn shows_camera_on(line: Seq<char>) -> bool {
    contains(line, marker())
}

/// The characters that have a meaning of their own in a regular expression,
/// as `regex_syntax::is_meta_character` lists them.
pub open spec fn is_meta_character(c: char) -> bool {
    ||| c == '\\'
    ||| c == '.'
    ||| c == '+'
    ||| c == '*'
    ||| c == '?'
    ||| c == '('
    ||| c == ')'
    ||| c == '|'
    ||| c == '['
    ||| c == ']'
    ||| c == '{'
    ||| c == '}'
    ||| c == '^'
    ||| c == '$'
    ||| c == '#'
    ||| c == '&'
    ||| c == '-'
    ||| c == '~'
}

/// `text` with a backslash put in front of each meta character, as
/// `regex::escape` writes it: the pattern that matches `text` itself and
/// nothing else.
pub open spec fn escaped(text: Seq<char>) -> Seq<char>
    decreases text.len(),
{
    if text.len() == 0 {
        Seq::empty()
    } else if is_meta_character(text.last()) {
        escaped(text.drop_last()).push('\\').push(text.last())
    } else {
        escaped(text.drop_last()).push(text.last())
    }
}

/// `regex::Regex`, a compiled regular expression. Nothing inside it is
/// visible here; what it matches goes by the name `matched_texts`.
#[verifier::external_type_specification]
#[verifier::external_body]
pub struct ExRegex(regex::Regex);

/// `regex::Error`, the reason why a pattern did not compile. It is carried
/// through as it is and sorted by `explain`.
#[verifier::external_type_specification]
#[verifier::external_body]
pub struct ExRegexError(regex::Error);

/// The haystacks in which a compiled regular expression finds a match.
pub uninterp spec fn matched_texts(re: Regex) -> Set<Seq<char>>;

/// Whether the regex engine, with the limits it sets by default, accepts
/// `pattern` and compiles it.
pub uninterp spec fn pattern_compiles(pattern: Seq<char>) -> bool;

/// `regex::Regex::new`: compiles a pattern. Whether that succeeds depends
/// on the pattern alone and goes by the name `pattern_compiles`; nothing is
/// claimed about which patterns it holds of. Of a regex that was compiled
/// from the escaped form of some text, the contract claims that it finds a
/// match in exactly those haystacks that contain the text.
#[verifier::external_body]
fn compile(pattern: &str) -> (compiled: Result<Regex, regex::Error>)
    ensures
        compiled is Ok <==> pattern_compiles(pattern@),
        compiled matches Ok(re) ==> forall|text: Seq<char>|
            pattern@ == #[trigger] escaped(text) ==> matched_texts(re) == texts_containing(text),
{
    Regex::new(pattern)
}

/// `regex::Regex::is_match`: whether the regex finds a match anywhere in the
/// haystack.
#[verifier::external_body]
fn is_match(re: &Regex, haystack: &str) -> (found: bool)
    ensures
        found == matched_texts(*re).contains(haystack@),
{
    re.is_match(haystack)
}

/// The pattern that the classifier compiles is the marker with its two meta
/// characters, the bracket and the dot, escaped.
pub proof fn lemma_pattern_spells_marker()
    ensures
        marker_pattern() == escaped(marker()),
{
    reveal_strlit("appEffects: [ControlCenterApp.AppVideoEffects");
    reveal_strlit("appEffects: \\[ControlCenterApp\\.AppVideoEffects");
    reveal_with_fuel(escaped, 46);
    assert(marker_pattern() =~= escaped(marker()));
}

/// Why the marker pattern could not be compiled.
#[derive(Debug, PartialEq, Eq)]
pub enum PatternError {
    /// The pattern is not a regular expression; the text says why.
    Syntax(String),
    /// The compiled pattern would be larger than the given number of bytes.
    TooBig(usize),
    /// Compilation failed for another reason.
    Other,
}

/// Sorts a `regex::Error` by its variants, `Syntax` and `CompiledTooBig`,
/// and carries over what each holds. Nothing is claimed of the result.
#[verifier::external_body]
fn explain(error: regex::Error) -> PatternError {
    match error {
        regex::Error::Syntax(text) => PatternError::Syntax(text),
        regex::Error::CompiledTooBig(limit) => PatternError::TooBig(limit),
        _ => PatternError::Other,
    }
}

/// The marker text.
pub fn marker_text() -> (text: &'static str)
    ensures
        text@ == marker(),
{
    "appEffects: [ControlCenterApp.AppVideoEffects"
}

/// The regular expression that the classifier compiles.
pub fn marker_pattern_text() -> (text: &'static str)
    ensures
        text@ == marker_pattern(),
{
    "appEffects: \\[ControlCenterApp\\.AppVideoEffects"
}

/// Decides for each log line whether it shows the camera in use.
pub struct LineClassifier {
    re: Regex,
}

impl LineClassifier {
    /// The compiled expression finds exactly the lines that hold the marker.
    #[verifier::type_invariant]
    spec fn finds_marker(self) -> bool {
        matched_texts(self.re) == texts_containing(marker())
    }

    /// Compiles the marker pattern. A classifier is returned exactly when
    /// the regex engine accepts the pattern, and it is exact: it finds the
    /// lines that hold the marker and no others. Otherwise the reason for
    /// the refusal is returned.
    pub fn new() -> (made: Result<LineClassifier, PatternError>)
        ensures
            made is Ok <==> pattern_compiles(marker_pattern()),
            made matches Ok(classifier) ==> classifier.found_lines() == texts_containing(marker()),
    {
        proof {
            lemma_pattern_spells_marker();
        }
        Self::from_compiled(compile(marker_pattern_text()))
    }

    /// Makes a classifier of what compiling the marker pattern gave: the
    /// classifier around the compiled regex, or the reason why there is
    /// none.
    pub fn from_compiled(compiled: Result<Regex, regex::Error>) -> (made: Result<
        LineClassifier,
        PatternError,
    >)
        requires
            compiled matches Ok(re) ==> matched_texts(re) == texts_containing(marker()),
        ensures
            made is Ok <==> compiled is Ok,
            made matches Ok(classifier) ==> compiled matches Ok(re) && classifier.found_lines()
                == matched_texts(re),
    {
        match compiled {
            Ok(re) => Ok(LineClassifier { re }),
            Err(error) => Err(explain(error)),
        }
    }

    /// The lines in which this classifier finds the camera in use.
    pub closed spec fn found_lines(&self) -> Set<Seq<char>> {
        matched_texts(self.re)
    }

    /// Whether `line` shows the camera in use: it does exactly when it
    /// contains the marker.
    pub fn is_camera_on(&self, line: &str) -> (camera_on: bool)
        ensures
            camera_on == shows_camera_on(line@),
            camera_on == self.found_lines().contains(line@),
    {
        proof {
            use_type_invariant(self);
        }
        is_match(&self.re, line)
    }

    /// The status that `line` stands for. A line without the marker counts
    /// as camera-off, whatever else it holds; so does an empty line.
    pub fn classify(&self, line: &str) -> (status: CameraStatus)
        ensures
            status == CameraStatus::detected(shows_camera_on(line@)),
            status != CameraStatus::Unknown,
    {
        CameraStatus::from_detection(self.is_camera_on(line))
    }
}

/// A line that holds the marker anywhere, whatever stands before and after
/// it, shows the camera in use.
pub proof fn lemma_line_with_marker_is_camera_on(before: Seq<char>, after: Seq<char>)
    ensures
        shows_camera_on(before + marker() + after),
{
    let line = before + marker() + after;
    let start = before.len() as int;
    assert(line.subrange(start, start + marker().len()) =~= marker());
    assert(occurs_at(line, marker(), start));
}

/// A line shorter than the marker, the empty line among them, does not show
/// the camera in use.
pub proof fn lemma_short_line_is_camera_off(line: Seq<char>)
    requires
        line.len() < marker().len(),
    ensures
        !shows_camera_on(line),
{
}

/// The empty line does not show the camera in use.
pub proof fn lemma_empty_line_is_camera_off()
    ensures
        !shows_camera_on(Seq::empty()),
{
    reveal_strlit("appEffects: [ControlCenterApp.AppVideoEffects");
}

} // verus!
