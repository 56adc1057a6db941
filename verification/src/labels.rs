//! The texts along a chart's axes: calendar dates below, grouped numbers at
//! the side.

use crate::timestamp::{chrono_formatted, date_pattern, format_instant};
use num_format::ToFormattedString;
use vstd::prelude::*;
use vstd::string::{StrSliceExecFns, StringExecFns};

verus! {

/// The width to which the labels of the value axis are right-aligned.
pub const VALUE_LABEL_WIDTH: usize = 13;

/// The decimal digit of a number from 0 to 9.
pub open spec fn digit_char(d: nat) -> char {
    if d == 0 {
        '0'
    } else if d == 1 {
        '1'
    } else if d == 2 {
        '2'
    } else if d == 3 {
        '3'
    } else if d == 4 {
        '4'
    } else if d == 5 {
        '5'
    } else if d == 6 {
        '6'
    } else if d == 7 {
        '7'
    } else if d == 8 {
        '8'
    } else {
        '9'
    }
}

/// A number in decimal, without leading zeros.
pub open spec fn decimal(n: nat) -> Seq<char>
    decreases n,
{
    if n < 10 {
        seq![digit_char(n)]
    } else {
        decimal(n / 10).push(digit_char(n % 10))
    }
}

/// A number below a thousand in exactly three decimal digits.
pub open spec fn three_digits(n: nat) -> Seq<char> {
    seq![digit_char(n / 100), digit_char((n / 10) % 10), digit_char(n % 10)]
}

/// A number in decimal with a comma before every group of three digits,
/// counted from the right: `1,234,567`.
pub open spec fn grouped_decimal(n: nat) -> Seq<char>
    decreases n,
{
    if n < 1000 {
        decimal(n)
    } else {
        grouped_decimal(n / 1000) + seq![','] + three_digits(n % 1000)
    }
}

/// Calls num_format's `ToFormattedString::to_formatted_string` on a `u64` with
/// `Locale::en`. Trusted: under that locale the crate writes the number in
/// decimal and separates groups of three digits by a comma.
#[verifier::external_body]
fn group_digits(n: u64) -> (text: String)
    ensures
        text@ == grouped_decimal(n as nat),
{
    n.to_formatted_string(&num_format::Locale::en)
}

/// `text` moved to the right end of a field of `width` characters; a longer
/// text is left as it is.
pub open spec fn right_aligned(text: Seq<char>, width: nat) -> Seq<char> {
    if text.len() >= width {
        text
    } else {
        Seq::new((width - text.len()) as nat, |i: int| ' ') + text
    }
}

/// Pads `text` with spaces on the left up to `width` characters.
pub fn right_align(text: &str, width: usize) -> (out: String)
    ensures
        out@ == right_aligned(text@, width as nat),
{
    let len = text.unicode_len();
    let mut out = String::new();
    if len < width {
        let missing = width - len;
        let mut i: usize = 0;
        while i < missing
            invariant
                i <= missing,
                out@ == Seq::new(i as nat, |k: int| ' '),
            decreases missing - i,
        {
            proof {
                reveal_strlit(" ");
            }
            out.append(" ");
            assert(out@ =~= Seq::new((i + 1) as nat, |k: int| ' '));
            i += 1;
        }
    }
    out.append(text);
    assert(out@ =~= right_aligned(text@, width as nat));
    out
}

/// The two labels of the value axis, for zero and for the top value.
pub open spec fn value_labels_spec(top: u64) -> Seq<Seq<char>> {
    seq![
        right_aligned(seq!['0'], VALUE_LABEL_WIDTH as nat),
        right_aligned(grouped_decimal(top as nat), VALUE_LABEL_WIDTH as nat),
    ]
}

/// The texts of a sequence of strings.
pub open spec fn texts(strings: Seq<String>) -> Seq<Seq<char>> {
    strings.map_values(|s: String| s@)
}

/// The labels of the value axis: zero, and `top` with its digits grouped,
/// each right-aligned.
pub fn value_labels(top: u64) -> (labels: Vec<String>)
    ensures
        texts(labels@) == value_labels_spec(top),
        labels@.len() == 2,
        labels@[0]@ == right_aligned(seq!['0'], VALUE_LABEL_WIDTH as nat),
        labels@[1]@ == right_aligned(grouped_decimal(top as nat), VALUE_LABEL_WIDTH as nat),
{
    let mut labels: Vec<String> = Vec::new();
    proof {
        reveal_strlit("0");
    }
    labels.push(right_align("0", VALUE_LABEL_WIDTH));
    assert("0"@ =~= seq!['0']);
    let grouped = group_digits(top);
    labels.push(right_align(grouped.as_str(), VALUE_LABEL_WIDTH));
    assert(texts(labels@) =~= value_labels_spec(top));
    labels
}

/// The instant halfway from `start` to `end`, rounded towards `start`.
pub open spec fn midpoint_spec(start: i64, end: i64) -> int {
    start + (end - start) / 2
}

/// The instant halfway from `start` to `end`.
pub fn midpoint(start: i64, end: i64) -> (mid: i64)
    requires
        start <= end,
    ensures
        mid == midpoint_spec(start, end),
        start <= mid <= end,
{
    let half: i128 = (end as i128 - start as i128) / 2;
    (start as i128 + half) as i64
}

/// The calendar date of an instant as chrono writes it, `YYYY-MM-DD`, where
/// chrono can represent the instant.
pub open spec fn date_label_spec(secs: i64) -> Option<Seq<char>> {
    chrono_formatted(secs, date_pattern())
}

/// The three labels of the time axis, for the start, the middle and the end
/// of the charted span, where chrono can write all three dates.
pub open spec fn time_labels_spec(start: i64, end: i64) -> Option<Seq<Seq<char>>> {
    let mid = midpoint_spec(start, end) as i64;
    if date_label_spec(start) is Some && date_label_spec(mid) is Some && date_label_spec(end)
        is Some {
        Some(
            seq![
                date_label_spec(start).unwrap(),
                date_label_spec(mid).unwrap(),
                date_label_spec(end).unwrap(),
            ],
        )
    } else {
        None
    }
}

/// The labels of the time axis: the dates at the start, the middle and the
/// end of the span from `start` to `end`.
pub fn time_labels(start: i64, end: i64) -> (labels: Option<Vec<String>>)
    requires
        start <= end,
    ensures
        match labels {
            Some(l) => {
                &&& time_labels_spec(start, end) == Some(texts(l@))
                &&& l@.len() == 3
                &&& Some(l@[0]@) == date_label_spec(start)
                &&& Some(l@[1]@) == date_label_spec(midpoint_spec(start, end) as i64)
                &&& Some(l@[2]@) == date_label_spec(end)
            },
            None => time_labels_spec(start, end) is None,
        },
{
    let mid = midpoint(start, end);
    let first = match format_instant(start, "%Y-%m-%d") {
        Some(text) => text,
        None => {
            return None;
        },
    };
    let middle = match format_instant(mid, "%Y-%m-%d") {
        Some(text) => text,
        None => {
            return None;
        },
    };
    let last = match format_instant(end, "%Y-%m-%d") {
        Some(text) => text,
        None => {
            return None;
        },
    };
    let mut labels: Vec<String> = Vec::new();
    labels.push(first);
    labels.push(middle);
    labels.push(last);
    assert(texts(labels@) =~= time_labels_spec(start, end).unwrap());
    Some(labels)
}

} // verus!
