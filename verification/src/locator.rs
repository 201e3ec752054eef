//! The track locator: reads the line-oriented text that the container
//! diagnostic tool prints for one file and decides which track, if any, is the
//! subtitle to extract, and in which format it is stored.

use crate::decimal::{decimal_value, is_decimal, parse_decimal};
use crate::text::{chars_of, contains, has_infix, texts};
use vstd::prelude::*;

verus! {

/// How a subtitle track is stored inside the container.
#[derive(Clone, Copy, Debug, PartialEq, Eq, Structural)]
pub enum SubtitleFormat {
    /// Styled subtitles, which have to be converted after extraction.
    AdvancedSubStationAlpha,
    /// Plain timed text, usable as extracted.
    PlainText,
}

/// What the scan of one file's diagnostic text decided.
#[derive(Clone, Copy, Debug, PartialEq, Eq, Structural)]
pub enum TrackSelection {
    /// No usable subtitle track was announced.
    NoSubtitleFound,
    /// The track with this index holds subtitles in this format.
    Selected { index: u64, format: SubtitleFormat },
}

/// What one line of diagnostic text contributes to the scan.
#[derive(Clone, Copy, Debug, PartialEq, Eq, Structural)]
pub struct LineFacts {
    /// The line names the advanced subtitle codec.
    pub advanced: bool,
    /// The line names the plain-text subtitle codec.
    pub plain: bool,
    /// The track index that the line carries, if it carries one. A line that
    /// names the advanced codec carries none: the scan ends there.
    pub candidate: Option<u64>,
}

/// The registers that the scan carries from line to line.
#[derive(Clone, Copy, Debug, PartialEq, Eq, Structural)]
pub struct ScanState {
    /// The index carried by the most recent index-bearing line.
    pub last_seen: Option<u64>,
    /// The format of the selection, once a codec line has been seen.
    pub format: Option<SubtitleFormat>,
    /// The value of `last_seen` at the moment the selection was made.
    pub index: Option<u64>,
}

/// The codec identifier of advanced subtitles.
pub open spec fn advanced_marker() -> Seq<char> {
    "S_TEXT/ASS"@
}

/// The codec identifier of plain-text subtitles.
pub open spec fn plain_marker() -> Seq<char> {
    "S_TEXT/UTF8"@
}

/// The word that marks a line as one that lists track numbers.
pub open spec fn index_marker() -> Seq<char> {
    "mkvextract"@
}

/// The pattern of one run of decimal digits.
pub open spec fn digit_run_pattern() -> Seq<char> {
    "[0-9]+"@
}

/// The successive non-overlapping matches of `pattern` in `text`, each as the
/// text it covers, in the order in which they stand; `None` where the pattern
/// is not one that the regular-expression engine accepts.
pub uninterp spec fn regex_matches(pattern: Seq<char>, text: Seq<char>) -> Option<Seq<Seq<char>>>;

/// The selection that a format and the index register give: none without an
/// index.
pub open spec fn resolve(index: Option<u64>, format: SubtitleFormat) -> TrackSelection {
    match index {
        Some(i) => TrackSelection::Selected { index: i, format },
        None => TrackSelection::NoSubtitleFound,
    }
}

/// The candidate index among the digit runs of a line: the number that the
/// last run writes, where at least one other run stands before it and the
/// number fits the index type.
pub open spec fn candidate_of(runs: Seq<Seq<char>>) -> Option<u64> {
    if runs.len() >= 2 && is_decimal(runs.last()) && decimal_value(runs.last()) <= u64::MAX {
        Some(decimal_value(runs.last()) as u64)
    } else {
        None
    }
}

/// The index that a line carries: that of its digit runs, where the line
/// holds the index marker. The digit runs are what the regular-expression
/// engine finds for the pattern of a digit run; a line in which it finds
/// fewer than two carries no index.
pub open spec fn line_candidate(line: Seq<char>) -> Option<u64> {
    if has_infix(line, index_marker()) {
        match regex_matches(digit_run_pattern(), line) {
            Some(runs) => candidate_of(runs),
            None => None,
        }
    } else {
        None
    }
}

/// What a line contributes. A line that names the advanced codec ends the
/// scan, so it carries no index.
pub open spec fn facts_of(line: Seq<char>) -> LineFacts {
    let advanced = has_infix(line, advanced_marker());
    LineFacts {
        advanced,
        plain: has_infix(line, plain_marker()),
        candidate: if advanced {
            None
        } else {
            line_candidate(line)
        },
    }
}

impl ScanState {
    /// The state before the first line.
    pub open spec fn initial() -> ScanState {
        ScanState { last_seen: None, format: None, index: None }
    }

    /// The scan has met the advanced codec and reads no further.
    pub open spec fn halted(self) -> bool {
        self.format == Some(SubtitleFormat::AdvancedSubStationAlpha)
    }

    /// The state after one more line.
    pub open spec fn fed(self, facts: LineFacts) -> ScanState {
        if self.halted() {
            self
        } else if facts.advanced {
            ScanState {
                last_seen: self.last_seen,
                format: Some(SubtitleFormat::AdvancedSubStationAlpha),
                index: self.last_seen,
            }
        } else {
            ScanState {
                last_seen: if facts.candidate is Some {
                    facts.candidate
                } else {
                    self.last_seen
                },
                format: if facts.plain {
                    Some(SubtitleFormat::PlainText)
                } else {
                    self.format
                },
                index: if facts.plain {
                    self.last_seen
                } else {
                    self.index
                },
            }
        }
    }

    /// The selection that the state stands for.
    pub open spec fn selection(self) -> TrackSelection {
        match self.format {
            Some(format) => resolve(self.index, format),
            None => TrackSelection::NoSubtitleFound,
        }
    }

    /// The state before the first line.
    pub fn new() -> (state: ScanState)
        ensures
            state == ScanState::initial(),
    {
        ScanState { last_seen: None, format: None, index: None }
    }

    /// Whether the scan has met the advanced codec and reads no further.
    pub fn is_halted(&self) -> (halted: bool)
        ensures
            halted == self.halted(),
    {
        match self.format {
            Some(SubtitleFormat::AdvancedSubStationAlpha) => true,
            _ => false,
        }
    }

    /// Takes one more line into account.
    pub fn feed(self, facts: LineFacts) -> (next: ScanState)
        ensures
            next == self.fed(facts),
    {
        if self.is_halted() {
            self
        } else if facts.advanced {
            ScanState {
                last_seen: self.last_seen,
                format: Some(SubtitleFormat::AdvancedSubStationAlpha),
                index: self.last_seen,
            }
        } else {
            let last_seen = match facts.candidate {
                Some(i) => Some(i),
                None => self.last_seen,
            };
            if facts.plain {
                ScanState {
                    last_seen,
                    format: Some(SubtitleFormat::PlainText),
                    index: self.last_seen,
                }
            } else {
                ScanState { last_seen, format: self.format, index: self.index }
            }
        }
    }

    /// The selection that the state stands for.
    pub fn select(&self) -> (selection: TrackSelection)
        ensures
            selection == self.selection(),
    {
        match (self.format, self.index) {
            (Some(format), Some(index)) => TrackSelection::Selected { index, format },
            _ => TrackSelection::NoSubtitleFound,
        }
    }
}

/// The state of the scan after all of `facts`, taken in order.
pub open spec fn scan(facts: Seq<LineFacts>) -> ScanState
    decreases facts.len(),
{
    if facts.len() == 0 {
        ScanState::initial()
    } else {
        scan(facts.drop_last()).fed(facts.last())
    }
}

/// What each of the lines contributes.
pub open spec fn line_facts(lines: Seq<Seq<char>>) -> Seq<LineFacts> {
    lines.map_values(|line: Seq<char>| facts_of(line))
}

/// What the locator decides for the given lines.
pub open spec fn locate_spec(lines: Seq<Seq<char>>) -> TrackSelection {
    scan(line_facts(lines)).selection()
}

/// The index carried by the last index-bearing line, if there is one.
pub open spec fn latest_candidate(facts: Seq<LineFacts>) -> Option<u64>
    decreases facts.len(),
{
    if facts.len() == 0 {
        None
    } else if facts.last().candidate is Some {
        facts.last().candidate
    } else {
        latest_candidate(facts.drop_last())
    }
}

/// No line names the advanced codec.
pub open spec fn none_advanced(facts: Seq<LineFacts>) -> bool {
    forall|j: int| 0 <= j < facts.len() ==> !(#[trigger] facts[j]).advanced
}

/// No line names the plain-text codec.
pub open spec fn none_plain(facts: Seq<LineFacts>) -> bool {
    forall|j: int| 0 <= j < facts.len() ==> !(#[trigger] facts[j]).plain
}

/// Line `k` is the first that names the advanced codec.
pub open spec fn first_advanced(facts: Seq<LineFacts>, k: int) -> bool {
    &&& 0 <= k < facts.len()
    &&& facts[k].advanced
    &&& forall|j: int| 0 <= j < k ==> !(#[trigger] facts[j]).advanced
}

/// Line `k` is the last that names the plain-text codec.
pub open spec fn last_plain(facts: Seq<LineFacts>, k: int) -> bool {
    &&& 0 <= k < facts.len()
    &&& facts[k].plain
    &&& forall|j: int| k < j < facts.len() ==> !(#[trigger] facts[j]).plain
}

/// The selection is not one of a plain-text track.
pub open spec fn not_plain(selection: TrackSelection) -> bool {
    selection matches TrackSelection::Selected { format, .. } ==> format
        == SubtitleFormat::AdvancedSubStationAlpha
}

/// Once the scan has halted, further lines change nothing.
pub proof fn lemma_scan_halted(facts: Seq<LineFacts>, n: int)
    requires
        0 <= n <= facts.len(),
        scan(facts.take(n)).halted(),
    ensures
        scan(facts) == scan(facts.take(n)),
    decreases facts.len(),
{
    if n == facts.len() {
        assert(facts.take(n) =~= facts);
    } else {
        assert(facts.drop_last().take(n) =~= facts.take(n));
        lemma_scan_halted(facts.drop_last(), n);
    }
}

/// While no line names the advanced codec the scan goes on, and its index
/// register holds the index of the last index-bearing line.
pub proof fn lemma_scan_running(facts: Seq<LineFacts>)
    requires
        none_advanced(facts),
    ensures
        !scan(facts).halted(),
        scan(facts).last_seen == latest_candidate(facts),
        none_plain(facts) ==> scan(facts).format is None,
    decreases facts.len(),
{
    if facts.len() > 0 {
        let rest = facts.drop_last();
        assert(none_advanced(rest));
        assert(none_plain(facts) ==> none_plain(rest));
        lemma_scan_running(rest);
    }
}

/// A text without any codec line selects nothing.
pub proof fn law_no_codec_line(facts: Seq<LineFacts>)
    requires
        none_advanced(facts),
        none_plain(facts),
    ensures
        scan(facts).selection() == TrackSelection::NoSubtitleFound,
{
    lemma_scan_running(facts);
}

/// Without an index-bearing line nothing is selected, whatever codec lines
/// there are: a selection without an index is none.
pub proof fn law_no_index_line(facts: Seq<LineFacts>)
    requires
        forall|j: int| 0 <= j < facts.len() ==> (#[trigger] facts[j]).candidate is None,
    ensures
        scan(facts).last_seen is None,
        scan(facts).index is None,
        scan(facts).selection() == TrackSelection::NoSubtitleFound,
    decreases facts.len(),
{
    if facts.len() > 0 {
        let rest = facts.drop_last();
        assert forall|j: int| 0 <= j < rest.len() implies (#[trigger] rest[j]).candidate is None by {
            assert(rest[j] == facts[j]);
        }
        law_no_index_line(rest);
        assert(facts.last() == facts[facts.len() - 1]);
    }
}

/// Where line `k` is the first to name the advanced codec, the scan ends
/// there: the lines after it play no part, the format is the advanced one, and
/// the index is that of the last index-bearing line before line `k`. Without
/// such a line nothing is selected.
pub proof fn law_first_advanced(facts: Seq<LineFacts>, k: int)
    requires
        first_advanced(facts, k),
    ensures
        scan(facts) == scan(facts.take(k + 1)),
        scan(facts).halted(),
        scan(facts).selection() == resolve(
            latest_candidate(facts.take(k)),
            SubtitleFormat::AdvancedSubStationAlpha,
        ),
{
    let before = facts.take(k);
    assert(none_advanced(before));
    lemma_scan_running(before);
    assert(facts.take(k + 1).drop_last() =~= before);
    lemma_scan_halted(facts, k + 1);
}

/// Where no line names the advanced codec and line `k` is the last to name the
/// plain-text codec, the format is plain text and the index is that of the
/// last index-bearing line before line `k`. Without such a line nothing is
/// selected.
pub proof fn law_last_plain(facts: Seq<LineFacts>, k: int)
    requires
        none_advanced(facts),
        last_plain(facts, k),
    ensures
        scan(facts).selection() == resolve(
            latest_candidate(facts.take(k)),
            SubtitleFormat::PlainText,
        ),
        scan(facts).format == Some(SubtitleFormat::PlainText),
        scan(facts).index == latest_candidate(facts.take(k)),
    decreases facts.len(),
{
    let rest = facts.drop_last();
    assert(none_advanced(rest));
    lemma_scan_running(rest);
    if k < facts.len() - 1 {
        assert(last_plain(rest, k));
        law_last_plain(rest, k);
        assert(rest.take(k) =~= facts.take(k));
    }
}

/// The first line that names the advanced codec, given that line `j` does.
pub proof fn lemma_first_advanced_exists(facts: Seq<LineFacts>, j: int) -> (k: int)
    requires
        0 <= j < facts.len(),
        facts[j].advanced,
    ensures
        first_advanced(facts, k),
        k <= j,
    decreases j,
{
    if exists|i: int| 0 <= i < j && (#[trigger] facts[i]).advanced {
        let i: int = choose|i: int| 0 <= i < j && (#[trigger] facts[i]).advanced;
        lemma_first_advanced_exists(facts, i)
    } else {
        j
    }
}

/// A line that names the advanced codec overrides every plain-text line
/// before it: the selection is never one of a plain-text track. It is the one
/// made at the first line `k` that names the advanced codec.
pub proof fn law_advanced_overrides(facts: Seq<LineFacts>, i: int, j: int) -> (k: int)
    requires
        0 <= i < j < facts.len(),
        facts[i].plain,
        facts[j].advanced,
    ensures
        first_advanced(facts, k),
        k <= j,
        scan(facts).format == Some(SubtitleFormat::AdvancedSubStationAlpha),
        scan(facts).selection() == resolve(
            latest_candidate(facts.take(k)),
            SubtitleFormat::AdvancedSubStationAlpha,
        ),
        not_plain(scan(facts).selection()),
{
    let k: int = lemma_first_advanced_exists(facts, j);
    law_first_advanced(facts, k);
    k
}

/// Calls `regex::Regex::new` on `pattern` and, where that gives an engine,
/// `Regex::find_iter` on `text`, and hands back what `Match::as_str` gives for
/// each match, in order. The contract only gives the outcome its name: it is
/// the same whenever pattern and text are the same. Nothing is proved of what
/// the engine takes for a match.
#[verifier::external_body]
fn find_all(pattern: &str, text: &str) -> (found: Option<Vec<String>>)
    ensures
        found matches Some(runs) ==> regex_matches(pattern@, text@) == Some(texts(runs@)),
        found is None ==> regex_matches(pattern@, text@) is None,
{
    match regex::Regex::new(pattern) {
        Ok(engine) => Some(engine.find_iter(text).map(|m| m.as_str().to_string()).collect()),
        Err(_) => None,
    }
}

/// Picks the candidate index among the digit runs found in an index-bearing
/// line.
pub fn pick_candidate(runs: &[String]) -> (candidate: Option<u64>)
    ensures
        candidate == candidate_of(texts(runs@)),
{
    if runs.len() < 2 {
        return None;
    }
    let digits = chars_of(runs[runs.len() - 1].as_str());
    parse_decimal(digits.as_slice())
}

/// Whether the characters of a line hold `marker`.
fn has_marker(line: &[char], marker: &str) -> (found: bool)
    ensures
        found == has_infix(line@, marker@),
{
    let needle = chars_of(marker);
    contains(line, needle.as_slice())
}

/// Reads what one line of diagnostic text contributes to the scan.
pub fn read_line(line: &str) -> (facts: LineFacts)
    ensures
        facts == facts_of(line@),
{
    let chars = chars_of(line);
    let advanced = has_marker(chars.as_slice(), "S_TEXT/ASS");
    let plain = has_marker(chars.as_slice(), "S_TEXT/UTF8");
    let candidate = if !advanced && has_marker(chars.as_slice(), "mkvextract") {
        match find_all("[0-9]+", line) {
            Some(runs) => pick_candidate(runs.as_slice()),
            None => None,
        }
    } else {
        None
    };
    LineFacts { advanced, plain, candidate }
}

/// Scans the lines of one file's diagnostic text, in order, and decides which
/// track to extract.
///
/// A line that holds `mkvextract` and at least two runs of digits is
/// index-bearing and carries the number written by its last run. A line that
/// holds `S_TEXT/UTF8` selects the index carried by the last index-bearing line
/// before it, as plain text; a line that holds `S_TEXT/ASS` selects it as
/// advanced subtitles and ends the scan. A selection made before any
/// index-bearing line has no index and counts as no subtitle found.
pub fn locate(lines: &[String]) -> (selection: TrackSelection)
    ensures
        selection == locate_spec(texts(lines@)),
        ({
            let facts = line_facts(texts(lines@));
            let advanced = SubtitleFormat::AdvancedSubStationAlpha;
            let plain = SubtitleFormat::PlainText;
            &&& none_advanced(facts) && none_plain(facts) ==> selection
                == TrackSelection::NoSubtitleFound
            &&& forall|k: int| #[trigger]
                first_advanced(facts, k) ==> selection == resolve(
                    latest_candidate(facts.take(k)),
                    advanced,
                )
            &&& forall|k: int|
                none_advanced(facts) && #[trigger] last_plain(facts, k) ==> selection == resolve(
                    latest_candidate(facts.take(k)),
                    plain,
                )
            &&& forall|i: int, j: int|
                0 <= i < j < facts.len() && (#[trigger] facts[i]).plain
                    && (#[trigger] facts[j]).advanced ==> not_plain(selection)
        }),
{
    let ghost facts = line_facts(texts(lines@));
    let mut state = ScanState::new();
    let mut i: usize = 0;
    while i < lines.len() && !state.is_halted()
        invariant
            i <= lines.len(),
            facts == line_facts(texts(lines@)),
            state == scan(facts.take(i as int)),
        decreases lines.len() - i,
    {
        let next = read_line(lines[i].as_str());
        assert(facts.take(i + 1).drop_last() =~= facts.take(i as int));
        state = state.feed(next);
        i += 1;
    }
    proof {
        if state.halted() {
            lemma_scan_halted(facts, i as int);
        } else {
            assert(facts.take(i as int) =~= facts);
        }
        if none_advanced(facts) && none_plain(facts) {
            law_no_codec_line(facts);
        }
        assert forall|k: int| #[trigger] first_advanced(facts, k) implies state.selection()
            == resolve(latest_candidate(facts.take(k)), SubtitleFormat::AdvancedSubStationAlpha) by {
            law_first_advanced(facts, k);
        }
        assert forall|k: int|
            none_advanced(facts) && #[trigger] last_plain(facts, k) implies state.selection()
            == resolve(latest_candidate(facts.take(k)), SubtitleFormat::PlainText) by {
            law_last_plain(facts, k);
        }
        assert forall|i: int, j: int|
            0 <= i < j < facts.len() && (#[trigger] facts[i]).plain
                && (#[trigger] facts[j]).advanced implies not_plain(state.selection()) by {
            let first: int = law_advanced_overrides(facts, i, j);
        }
    }
    state.select()
}

} // verus!
