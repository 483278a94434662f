//! The battery indicator: a glyph for the charge, a mark while charging, and
//! the percentage.

use crate::cycle::FetchFailure;
use crate::cycle::fetched_view;
use crate::numbers::decimal;
use crate::numbers::decimal_text;
use crate::numbers::parse_i32;
use crate::numbers::signed_reading;
use crate::text::same_text;
use crate::text::trim;
use crate::text::trimmed;
use vstd::prelude::*;
use vstd::string::*;

verus! {

/// The glyph for a charge that lies in no bucket.
pub open spec fn fallback_glyph() -> Seq<char> {
    "\u{f06d}"@
}

/// The buckets of the charge: the lowest and the highest percentage of each,
/// both included, and its glyph.
pub open spec fn battery_buckets() -> Seq<(int, int, Seq<char>)> {
    seq![
        (0, 10, "\u{f06d}"@),
        (11, 15, "\u{f244}"@),
        (16, 50, "\u{f243}"@),
        (51, 75, "\u{f242}"@),
        (76, 99, "\u{f241}"@),
        (100, 100, "\u{f240}"@),
    ]
}

/// Whether `percentage` lies in the bucket with index `bucket`.
pub open spec fn in_bucket(bucket: int, percentage: int) -> bool {
    0 <= bucket < battery_buckets().len() && battery_buckets()[bucket].0 <= percentage
        <= battery_buckets()[bucket].1
}

/// The glyph for a charge of `percentage`.
pub open spec fn battery_glyph(percentage: int) -> Seq<char> {
    if 0 <= percentage <= 10 {
        "\u{f06d}"@
    } else if 11 <= percentage <= 15 {
        "\u{f244}"@
    } else if 16 <= percentage <= 50 {
        "\u{f243}"@
    } else if 51 <= percentage <= 75 {
        "\u{f242}"@
    } else if 76 <= percentage <= 99 {
        "\u{f241}"@
    } else if percentage == 100 {
        "\u{f240}"@
    } else {
        fallback_glyph()
    }
}

/// The mark that stands before the glyph while the battery is charging.
pub open spec fn charging_mark(status: Seq<char>) -> Seq<char> {
    if status == "Charging"@ {
        "\u{f0e7} "@
    } else {
        Seq::empty()
    }
}

/// The display text for a charge of `percentage` and a charging status.
pub open spec fn battery_text(percentage: int, status: Seq<char>) -> Seq<char> {
    charging_mark(status) + battery_glyph(percentage) + seq![' '] + decimal(percentage) + seq!['%']
}

/// The display text that the texts of the two sensor files lead to, or the
/// failure: a failure to read the charge comes first, then a charge that is
/// no 32-bit number, then a failure to read the status.
pub open spec fn battery_reading(
    capacity: Result<Seq<char>, FetchFailure>,
    status: Result<Seq<char>, FetchFailure>,
) -> Result<Seq<char>, FetchFailure> {
    match capacity {
        Err(failure) => Err(failure),
        Ok(charge) => match signed_reading(trimmed(charge)) {
            Some(percentage) => if i32::MIN <= percentage <= i32::MAX {
                match status {
                    Err(failure) => Err(failure),
                    Ok(state) => Ok(battery_text(percentage, trimmed(state))),
                }
            } else {
                Err(FetchFailure::Transient)
            },
            None => Err(FetchFailure::Transient),
        },
    }
}

/// The glyph for a charge of `percentage`.
pub fn battery_icon(percentage: i32) -> (glyph: &'static str)
    ensures
        glyph@ == battery_glyph(percentage as int),
{
    if percentage < 0 {
        "\u{f06d}"
    } else if percentage <= 10 {
        "\u{f06d}"
    } else if percentage <= 15 {
        "\u{f244}"
    } else if percentage <= 50 {
        "\u{f243}"
    } else if percentage <= 75 {
        "\u{f242}"
    } else if percentage <= 99 {
        "\u{f241}"
    } else if percentage == 100 {
        "\u{f240}"
    } else {
        "\u{f06d}"
    }
}

/// The display text for a charge of `percentage` and a charging status as
/// the sensor words it.
pub fn battery_display(percentage: i32, status: &str) -> (text: String)
    ensures
        text@ == battery_text(percentage as int, status@),
{
    proof {
        reveal_strlit("");
        reveal_strlit(" ");
        reveal_strlit("%");
        assert(""@ =~= Seq::<char>::empty());
        assert(" "@ =~= seq![' ']);
        assert("%"@ =~= seq!['%']);
    }
    let mark = if same_text(status, "Charging") {
        "\u{f0e7} "
    } else {
        ""
    };
    let mut text = String::from_str(mark);
    text.append(battery_icon(percentage));
    text.append(" ");
    text.append(decimal_text(percentage).as_str());
    text.append("%");
    text
}

/// The display text that the two sensor files lead to, each given as its
/// text or as the failure to read it.
pub fn battery_fetch(
    capacity: Result<String, FetchFailure>,
    status: Result<String, FetchFailure>,
) -> (fetched: Result<String, FetchFailure>)
    ensures
        fetched_view(fetched) == battery_reading(fetched_view(capacity), fetched_view(status)),
{
    let charge = match capacity {
        Ok(charge) => charge,
        Err(failure) => {
            return Err(failure);
        },
    };
    let percentage = match parse_i32(trim(charge.as_str())) {
        Some(percentage) => percentage,
        None => {
            return Err(FetchFailure::Transient);
        },
    };
    match status {
        Ok(state) => Ok(battery_display(percentage, trim(state.as_str()))),
        Err(failure) => Err(failure),
    }
}

/// Every percentage from 0 to 100 lies in exactly one bucket, whose glyph it
/// gets; every other percentage lies in none and gets the fallback glyph.
pub proof fn lemma_buckets_partition(percentage: int)
    ensures
        0 <= percentage <= 100 ==> exists|bucket: int|
            #![trigger in_bucket(bucket, percentage)]
            in_bucket(bucket, percentage) && battery_glyph(percentage)
                == battery_buckets()[bucket].2 && forall|other: int|
                #![trigger in_bucket(other, percentage)]
                in_bucket(other, percentage) ==> other == bucket,
        !(0 <= percentage <= 100) ==> battery_glyph(percentage) == fallback_glyph() && forall|
            bucket: int,
        |
            #![trigger in_bucket(bucket, percentage)]
            !in_bucket(bucket, percentage),
{
    let bucket: int = if percentage <= 10 {
        0
    } else if percentage <= 15 {
        1
    } else if percentage <= 50 {
        2
    } else if percentage <= 75 {
        3
    } else if percentage <= 99 {
        4
    } else {
        5
    };
    if 0 <= percentage <= 100 {
        assert(in_bucket(bucket, percentage));
        assert(battery_glyph(percentage) == battery_buckets()[bucket].2);
    }
}

/// The buckets follow one another without a gap: the first begins at 0, each
/// next one begins one above the end of the one before, and the last ends at
/// 100.
pub proof fn lemma_buckets_adjoin()
    ensures
        battery_buckets()[0].0 == 0,
        battery_buckets()[battery_buckets().len() - 1].1 == 100,
        forall|bucket: int|
            0 <= bucket < battery_buckets().len() ==> (#[trigger] battery_buckets()[bucket]).0
                <= battery_buckets()[bucket].1,
        forall|bucket: int|
            0 < bucket < battery_buckets().len() ==> (#[trigger] battery_buckets()[bucket]).0
                == battery_buckets()[bucket - 1].1 + 1,
{
}

} // verus!
