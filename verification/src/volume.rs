//! The volume indicator: the level that the mixer reports, with a glyph.

use crate::cycle::command_output;
use crate::cycle::CommandRun;
use crate::cycle::FetchFailure;
use crate::cycle::fetched_view;
use crate::numbers::parse_u32;
use crate::numbers::unsigned_reading;
use crate::text::find_line;
use crate::text::line_with;
use vstd::prelude::*;
use vstd::string::*;

verus! {

/// The words that mark the line of the mixer's report that holds the level.
pub open spec fn level_marker() -> Seq<char> {
    "Front Left:"@
}

/// The regular expression for the level: digits and a percent sign, in
/// square brackets; its first group is the level without the brackets.
pub open spec fn level_pattern() -> Seq<char> {
    "\\[(\\d+%)\\]"@
}

/// What group `group` holds after the leftmost match of the regular
/// expression `pattern` in `text`: nothing where the pattern does not
/// compile, where it matches nowhere, or where the group took no part in the
/// match.
pub uninterp spec fn captured(pattern: Seq<char>, text: Seq<char>, group: nat) -> Option<Seq<char>>;

/// Compiles `pattern` with `regex::Regex::new`, searches `text` with
/// `Regex::captures`, and reads group `group` of the match with
/// `Captures::get`. The contract only gives the outcome its name,
/// `captured`; what a pattern matches is not proved here.
#[verifier::external_body]
fn capture(pattern: &str, text: &str, group: usize) -> (found: Option<String>)
    ensures
        found matches Some(part) ==> captured(pattern@, text@, group as nat) == Some(part@),
        found is None ==> captured(pattern@, text@, group as nat) is None,
{
    let compiled = match regex::Regex::new(pattern) {
        Ok(compiled) => compiled,
        Err(_) => return None,
    };
    let groups = match compiled.captures(text) {
        Some(groups) => groups,
        None => return None,
    };
    match groups.get(group) {
        Some(part) => Some(String::from(part.as_str())),
        None => None,
    }
}

/// The glyph for a level of `value` percent.
pub open spec fn volume_glyph(value: nat) -> Seq<char> {
    if value == 0 {
        "\u{f026}"@
    } else if value <= 75 {
        "\u{f027}"@
    } else if value <= 100 {
        "\u{f028}"@
    } else {
        "\u{f06d}"@
    }
}

/// The buckets of the level: the lowest and the highest percentage of each,
/// both included, and its glyph.
pub open spec fn volume_buckets() -> Seq<(int, int, Seq<char>)> {
    seq![(0, 0, "\u{f026}"@), (1, 75, "\u{f027}"@), (76, 100, "\u{f028}"@)]
}

/// Whether a level of `value` percent lies in the bucket with index `bucket`.
pub open spec fn in_volume_bucket(bucket: int, value: int) -> bool {
    0 <= bucket < volume_buckets().len() && volume_buckets()[bucket].0 <= value
        <= volume_buckets()[bucket].1
}

/// Every level from 0 to 100 lies in exactly one bucket, whose glyph it gets;
/// every level above lies in none and gets the glyph for a level out of
/// range.
pub proof fn lemma_volume_buckets_partition(value: nat)
    ensures
        value <= 100 ==> exists|bucket: int|
            #![trigger in_volume_bucket(bucket, value as int)]
            in_volume_bucket(bucket, value as int) && volume_glyph(value)
                == volume_buckets()[bucket].2 && forall|other: int|
                #![trigger in_volume_bucket(other, value as int)]
                in_volume_bucket(other, value as int) ==> other == bucket,
        value > 100 ==> volume_glyph(value) == "\u{f06d}"@ && forall|bucket: int|
            #![trigger in_volume_bucket(bucket, value as int)]
            !in_volume_bucket(bucket, value as int),
{
    let bucket: int = if value == 0 {
        0
    } else if value <= 75 {
        1
    } else {
        2
    };
    if value <= 100 {
        assert(in_volume_bucket(bucket, value as int));
        assert(volume_glyph(value) == volume_buckets()[bucket].2);
    }
}

/// The display text for a level written as digits and a percent sign: the
/// glyph for the number, a space, and the level as written. Nothing for a
/// level of another form, or whose number does not fit 32 bits.
pub open spec fn level_text(level: Seq<char>) -> Option<Seq<char>> {
    if level.len() > 0 && level.last() == '%' {
        match unsigned_reading(level.drop_last()) {
            Some(value) => if value <= u32::MAX {
                Some(volume_glyph(value) + seq![' '] + level)
            } else {
                None
            },
            None => None,
        }
    } else {
        None
    }
}

/// The display text for what the pattern captured on the level's line.
pub open spec fn captured_text(found: Option<Seq<char>>) -> Result<Seq<char>, FetchFailure> {
    match found {
        Some(level) => match level_text(level) {
            Some(text) => Ok(text),
            None => Err(FetchFailure::Transient),
        },
        None => Err(FetchFailure::Transient),
    }
}

/// The display text that the mixer's report leads to: the level is searched
/// on the first line that holds the marker; a report without such a line or
/// without a level on it is a transient failure.
pub open spec fn volume_reading(report: Seq<char>) -> Result<Seq<char>, FetchFailure> {
    match line_with(report, level_marker()) {
        Some(line) => captured_text(captured(level_pattern(), line, 1)),
        None => Err(FetchFailure::Transient),
    }
}

/// The glyph for a level of `value` percent.
pub fn volume_icon(value: u32) -> (glyph: &'static str)
    ensures
        glyph@ == volume_glyph(value as nat),
{
    if value == 0 {
        "\u{f026}"
    } else if value <= 75 {
        "\u{f027}"
    } else if value <= 100 {
        "\u{f028}"
    } else {
        "\u{f06d}"
    }
}

/// The display text for a level written as digits and a percent sign.
pub fn volume_from_level(level: &str) -> (text: Option<String>)
    ensures
        text matches Some(t) ==> level_text(level@) == Some(t@),
        text is None ==> level_text(level@) is None,
{
    let len = level.unicode_len();
    if len == 0 || level.get_char(len - 1) != '%' {
        return None;
    }
    let number = level.substring_char(0, len - 1);
    proof {
        assert(number@ =~= level@.drop_last());
        reveal_strlit(" ");
        assert(" "@ =~= seq![' ']);
    }
    match parse_u32(number) {
        Some(value) => {
            let mut text = String::from_str(volume_icon(value));
            text.append(" ");
            text.append(level);
            Some(text)
        },
        None => None,
    }
}

/// The display text for what the pattern captured on the level's line.
pub fn volume_from_capture(found: Option<String>) -> (fetched: Result<String, FetchFailure>)
    ensures
        fetched_view(fetched) == captured_text(
            match found {
                Some(level) => Some(level@),
                None => None,
            },
        ),
{
    match found {
        Some(level) => match volume_from_level(level.as_str()) {
            Some(text) => Ok(text),
            None => Err(FetchFailure::Transient),
        },
        None => Err(FetchFailure::Transient),
    }
}

/// The display text that the mixer's report leads to.
pub fn volume_display(report: &str) -> (fetched: Result<String, FetchFailure>)
    ensures
        fetched_view(fetched) == volume_reading(report@),
{
    match find_line(report, "Front Left:") {
        Some(line) => volume_from_capture(capture("\\[(\\d+%)\\]", line, 1)),
        None => Err(FetchFailure::Transient),
    }
}

/// The display text that a run of the mixer leads to, or the failure.
pub fn volume_fetch(run: CommandRun, on_exit_failure: FetchFailure) -> (fetched: Result<
    String,
    FetchFailure,
>)
    ensures
        fetched_view(fetched) == match run {
            CommandRun::NotStarted => Err::<Seq<char>, FetchFailure>(FetchFailure::Fatal),
            CommandRun::Failed => Err(on_exit_failure),
            CommandRun::Succeeded(report) => volume_reading(report@),
        },
{
    match command_output(run, on_exit_failure) {
        Ok(report) => volume_display(report.as_str()),
        Err(failure) => Err(failure),
    }
}

} // verus!
