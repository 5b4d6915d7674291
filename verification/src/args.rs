//! The invocation description: which measurement kinds are requested,
//! and the pipeline from text and request to the rendered output line.
//!
//! An empty request is substituted by the default kind set
//! {lines, words, bytes}; the rendered line always lists counts in the
//! fixed display order lines, words, bytes, chars, whatever order the
//! kinds were requested in.

use vstd::prelude::*;
use vstd::string::StringExecFns;

use crate::count::Count;
use crate::counts::byte_count;
use crate::counts::char_count;
use crate::counts::fetch_byte_count;
use crate::counts::fetch_char_count;
use crate::counts::fetch_line_count;
use crate::counts::fetch_word_count;
use crate::counts::line_count;
use crate::counts::word_count;

verus! {

/// One of the four measurements the tool can report.
#[derive(Clone, Copy, Debug, PartialEq, Eq, Structural)]
pub enum MeasurementKind {
    Bytes,
    Chars,
    Lines,
    Words,
}

/// A parsed invocation: one flag per measurement kind, and the optional
/// path of the input file (`None` selects standard input).
pub struct Args {
    /// Display the byte count
    pub should_display_bytes: bool,
    /// Display the character count
    pub should_display_chars: bool,
    /// Display the line count
    pub should_display_lines: bool,
    /// Display the word count
    pub should_display_words: bool,
    /// Optional path to the input file; standard input if not provided
    pub file_path: Option<String>,
}

/// The kind set substituted for an empty request: lines, words and
/// bytes, with chars opt-in only.
pub open spec fn default_kinds() -> Set<MeasurementKind> {
    set![MeasurementKind::Lines, MeasurementKind::Words, MeasurementKind::Bytes]
}

impl Args {
    /// The set of measurement kinds the flags request.
    pub open spec fn requested_kinds(self) -> Set<MeasurementKind> {
        Set::new(
            |k: MeasurementKind|
                match k {
                    MeasurementKind::Bytes => self.should_display_bytes,
                    MeasurementKind::Chars => self.should_display_chars,
                    MeasurementKind::Lines => self.should_display_lines,
                    MeasurementKind::Words => self.should_display_words,
                },
        )
    }

    /// Whether no measurement flag is set.
    pub open spec fn no_kind_requested(self) -> bool {
        &&& !self.should_display_bytes
        &&& !self.should_display_chars
        &&& !self.should_display_lines
        &&& !self.should_display_words
    }

    /// The request after default substitution: the requested kinds, or
    /// the default set when none was requested.
    pub open spec fn effective_kinds(self) -> Set<MeasurementKind> {
        if self.no_kind_requested() {
            default_kinds()
        } else {
            self.requested_kinds()
        }
    }
}

/// The counts for exactly the kinds in `kinds`, each computed over
/// `text`; every other kind is left unpopulated.
pub open spec fn measured(text: Seq<char>, kinds: Set<MeasurementKind>) -> Count {
    Count {
        bytes: if kinds.contains(MeasurementKind::Bytes) {
            Some(byte_count(text) as usize)
        } else {
            None
        },
        chars: if kinds.contains(MeasurementKind::Chars) {
            Some(char_count(text) as usize)
        } else {
            None
        },
        lines: if kinds.contains(MeasurementKind::Lines) {
            Some(line_count(text) as usize)
        } else {
            None
        },
        words: if kinds.contains(MeasurementKind::Words) {
            Some(word_count(text) as usize)
        } else {
            None
        },
    }
}

/// Computes the counts for the effective request: exactly the requested
/// kinds, or lines, words and bytes when no kind was requested.
pub fn measure(file_contents: &str, args: &Args) -> (r: Count)
    ensures
        r == measured(file_contents@, args.effective_kinds()),
{
    let mut result = Count::new();

    if args.should_display_bytes {
        let byte_total = fetch_byte_count(file_contents);
        result.bytes = Some(byte_total);
    }

    if args.should_display_lines {
        let line_total = fetch_line_count(file_contents);
        result.lines = Some(line_total);
    }

    if args.should_display_words {
        let word_total = fetch_word_count(file_contents);
        result.words = Some(word_total);
    }

    if args.should_display_chars {
        let char_total = fetch_char_count(file_contents);
        result.chars = Some(char_total);
    }

    if result.is_empty() {
        result = Count {
            bytes: Some(fetch_byte_count(file_contents)),
            chars: None,
            lines: Some(fetch_line_count(file_contents)),
            words: Some(fetch_word_count(file_contents)),
        };
    }
    result
}

/// The set of measurement kinds a count record has populated.
pub open spec fn populated_kinds(count: Count) -> Set<MeasurementKind> {
    Set::new(
        |k: MeasurementKind|
            match k {
                MeasurementKind::Bytes => count.bytes is Some,
                MeasurementKind::Chars => count.chars is Some,
                MeasurementKind::Lines => count.lines is Some,
                MeasurementKind::Words => count.words is Some,
            },
    )
}

/// A measurement result is never partially populated: the kinds it
/// holds are exactly the kinds that were measured.
pub proof fn lemma_result_kinds_match_request(text: Seq<char>, kinds: Set<MeasurementKind>)
    ensures
        populated_kinds(measured(text, kinds)) =~= kinds,
{
    assert forall|k: MeasurementKind|
        populated_kinds(measured(text, kinds)).contains(k) == kinds.contains(k) by {
        match k {
            MeasurementKind::Bytes => {},
            MeasurementKind::Chars => {},
            MeasurementKind::Lines => {},
            MeasurementKind::Words => {},
        }
    }
}

/// The complete output line for an invocation: the rendered counts of
/// the effective request, one trailing space, then the display name.
pub open spec fn output_line(args: Args, text: Seq<char>, display_name: Seq<char>) -> Seq<char> {
    measured(text, args.effective_kinds()).rendered() + seq![' '] + display_name
}

/// Renders one output line: the populated counts in fixed display
/// order, a single space, then the display name (which may be empty).
pub fn render(result: &Count, display_name: &str) -> (r: String)
    ensures
        r@ == result.rendered() + seq![' '] + display_name@,
{
    let mut rendered_line = result.to_string();
    proof {
        reveal_strlit(" ");
    }
    rendered_line.append(" ");
    rendered_line.append(display_name);
    proof {
        assert(rendered_line@ =~= result.rendered() + seq![' '] + display_name@);
    }
    rendered_line
}

impl Args {
    /// Measures the text for the effective request and renders the
    /// output line with the given display name.
    pub fn execute(&self, file_contents: &str, file_name: &str) -> (r: String)
        ensures
            r@ == output_line(*self, file_contents@, file_name@),
    {
        let result = measure(file_contents, self);
        render(&result, file_name)
    }
}

/// The request whose flags are set for exactly the kinds that occur in
/// `kinds`, with no input path.
pub open spec fn request_of(kinds: Seq<MeasurementKind>) -> Args {
    Args {
        should_display_bytes: kinds.contains(MeasurementKind::Bytes),
        should_display_chars: kinds.contains(MeasurementKind::Chars),
        should_display_lines: kinds.contains(MeasurementKind::Lines),
        should_display_words: kinds.contains(MeasurementKind::Words),
        file_path: None,
    }
}

/// Builds the request that asks for exactly the kinds occurring in
/// `kinds`, however often and in whatever order they occur.
pub fn request_from_kinds(kinds: &Vec<MeasurementKind>) -> (r: Args)
    ensures
        r == request_of(kinds@),
{
    let mut bytes_requested = false;
    let mut chars_requested = false;
    let mut lines_requested = false;
    let mut words_requested = false;
    let mut i: usize = 0;
    while i < kinds.len()
        invariant
            0 <= i <= kinds@.len(),
            bytes_requested == exists|j: int|
                0 <= j < i && kinds@[j] == MeasurementKind::Bytes,
            chars_requested == exists|j: int|
                0 <= j < i && kinds@[j] == MeasurementKind::Chars,
            lines_requested == exists|j: int|
                0 <= j < i && kinds@[j] == MeasurementKind::Lines,
            words_requested == exists|j: int|
                0 <= j < i && kinds@[j] == MeasurementKind::Words,
        decreases kinds@.len() - i,
    {
        match kinds[i] {
            MeasurementKind::Bytes => {
                bytes_requested = true;
            },
            MeasurementKind::Chars => {
                chars_requested = true;
            },
            MeasurementKind::Lines => {
                lines_requested = true;
            },
            MeasurementKind::Words => {
                words_requested = true;
            },
        }
        i = i + 1;
    }
    Args {
        should_display_bytes: bytes_requested,
        should_display_chars: chars_requested,
        should_display_lines: lines_requested,
        should_display_words: words_requested,
        file_path: None,
    }
}

/// Rendering is order-stable: two requests that name the same kinds —
/// in any order and with any multiplicity — yield the same output line
/// on the same text and display name.
pub proof fn lemma_render_order_stable(
    kinds_one: Seq<MeasurementKind>,
    kinds_two: Seq<MeasurementKind>,
    text: Seq<char>,
    display_name: Seq<char>,
)
    requires
        forall|k: MeasurementKind| kinds_one.contains(k) <==> kinds_two.contains(k),
    ensures
        output_line(request_of(kinds_one), text, display_name) == output_line(
            request_of(kinds_two),
            text,
            display_name,
        ),
{
    assert(kinds_one.contains(MeasurementKind::Bytes) <==> kinds_two.contains(
        MeasurementKind::Bytes,
    ));
    assert(kinds_one.contains(MeasurementKind::Chars) <==> kinds_two.contains(
        MeasurementKind::Chars,
    ));
    assert(kinds_one.contains(MeasurementKind::Lines) <==> kinds_two.contains(
        MeasurementKind::Lines,
    ));
    assert(kinds_one.contains(MeasurementKind::Words) <==> kinds_two.contains(
        MeasurementKind::Words,
    ));
    assert(request_of(kinds_one) == request_of(kinds_two));
}

/// Default substitution: an empty request is replaced by the default
/// set {lines, words, bytes}; a non-empty request — in particular a
/// chars-only request — is kept as it is.
pub proof fn lemma_default_substitution(args: Args)
    ensures
        args.requested_kinds() =~= Set::<MeasurementKind>::empty() <==> args.no_kind_requested(),
        args.no_kind_requested() ==> args.effective_kinds() == default_kinds(),
        !args.no_kind_requested() ==> args.effective_kinds() == args.requested_kinds(),
        args.should_display_chars && !args.should_display_bytes && !args.should_display_lines
            && !args.should_display_words ==> args.effective_kinds() =~= set![
            MeasurementKind::Chars,
        ],
{
    if args.no_kind_requested() {
        assert forall|k: MeasurementKind| !args.requested_kinds().contains(k) by {
            match k {
                MeasurementKind::Bytes => {},
                MeasurementKind::Chars => {},
                MeasurementKind::Lines => {},
                MeasurementKind::Words => {},
            }
        }
        assert(args.requested_kinds() =~= Set::<MeasurementKind>::empty());
    } else {
        assert(args.requested_kinds().contains(MeasurementKind::Bytes)
            == args.should_display_bytes);
        assert(args.requested_kinds().contains(MeasurementKind::Chars)
            == args.should_display_chars);
        assert(args.requested_kinds().contains(MeasurementKind::Lines)
            == args.should_display_lines);
        assert(args.requested_kinds().contains(MeasurementKind::Words)
            == args.should_display_words);
    }
}

} // verus!
