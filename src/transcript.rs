//! Transcript segments and the lines they are reported as.

use vstd::prelude::*;
use vstd::string::*;

verus! {

/// One span of recognised speech: start and end offsets as the engine gives
/// them, and the text.
pub struct TranscriptSegment {
    pub start: i64,
    pub end: i64,
    pub text: String,
}

impl TranscriptSegment {
    pub fn new(start: i64, end: i64, text: String) -> (r: TranscriptSegment)
        ensures
            r.start == start,
            r.end == end,
            r.text@ == text@,
    {
        TranscriptSegment { start, end, text }
    }
}

pub open spec fn digit_char(d: nat) -> char {
    if d == 0 { '0' }
    else if d == 1 { '1' }
    else if d == 2 { '2' }
    else if d == 3 { '3' }
    else if d == 4 { '4' }
    else if d == 5 { '5' }
    else if d == 6 { '6' }
    else if d == 7 { '7' }
    else if d == 8 { '8' }
    else { '9' }
}

/// Decimal digits of `n`, most significant first, with no leading zero.
pub open spec fn decimal(n: nat) -> Seq<char>
    decreases n,
{
    if n < 10 {
        seq![digit_char(n)]
    } else {
        decimal(n / 10) + seq![digit_char(n % 10)]
    }
}

/// Decimal text of `v`, with a leading `-` when it is negative.
pub open spec fn signed_decimal(v: int) -> Seq<char> {
    if v < 0 {
        seq!['-'] + decimal((-v) as nat)
    } else {
        decimal(v as nat)
    }
}

/// The line reported for a segment: `[start - end]: text` and a newline.
pub open spec fn segment_line(start: int, end: int, text: Seq<char>) -> Seq<char> {
    seq!['['] + signed_decimal(start) + seq![' ', '-', ' '] + signed_decimal(end) + seq![
        ']',
        ':',
        ' ',
    ] + text + seq!['\n']
}

fn digit_str(d: u64) -> (r: &'static str)
    requires
        d < 10,
    ensures
        r@ == seq![digit_char(d as nat)],
{
    proof {
        reveal_strlit("0");
        reveal_strlit("1");
        reveal_strlit("2");
        reveal_strlit("3");
        reveal_strlit("4");
        reveal_strlit("5");
        reveal_strlit("6");
        reveal_strlit("7");
        reveal_strlit("8");
        reveal_strlit("9");
    }
    if d == 0 {
        "0"
    } else if d == 1 {
        "1"
    } else if d == 2 {
        "2"
    } else if d == 3 {
        "3"
    } else if d == 4 {
        "4"
    } else if d == 5 {
        "5"
    } else if d == 6 {
        "6"
    } else if d == 7 {
        "7"
    } else if d == 8 {
        "8"
    } else {
        "9"
    }
}

fn append_decimal(out: &mut String, n: u64)
    ensures
        final(out)@ == old(out)@ + decimal(n as nat),
    decreases n,
{
    if n >= 10 {
        append_decimal(out, n / 10);
    }
    out.append(digit_str(n % 10));
    assert(final(out)@ =~= old(out)@ + decimal(n as nat));
}

fn append_signed(out: &mut String, v: i64)
    ensures
        final(out)@ == old(out)@ + signed_decimal(v as int),
{
    if v < 0 {
        proof {
            reveal_strlit("-");
        }
        out.append("-");
        let m: u64 = (-(v as i128)) as u64;
        append_decimal(out, m);
        assert(final(out)@ =~= old(out)@ + signed_decimal(v as int));
    } else {
        append_decimal(out, v as u64);
    }
}

/// The line reported for `seg`.
pub fn format_segment(seg: &TranscriptSegment) -> (r: String)
    ensures
        r@ == segment_line(seg.start as int, seg.end as int, seg.text@),
{
    proof {
        reveal_strlit("[");
        reveal_strlit(" - ");
        reveal_strlit("]: ");
        reveal_strlit("\n");
    }
    let mut line = String::new();
    line.append("[");
    append_signed(&mut line, seg.start);
    line.append(" - ");
    append_signed(&mut line, seg.end);
    line.append("]: ");
    line.append(seg.text.as_str());
    line.append("\n");
    assert(line@ =~= segment_line(seg.start as int, seg.end as int, seg.text@));
    line
}

/// The lines for a sequence of segments, one per segment, in the same order.
pub fn transcript_lines(segments: &Vec<TranscriptSegment>) -> (r: Vec<String>)
    ensures
        r@.len() == segments@.len(),
        forall|i: int|
            0 <= i < r@.len() ==> #[trigger] r@[i]@ == segment_line(
                segments@[i].start as int,
                segments@[i].end as int,
                segments@[i].text@,
            ),
{
    let mut lines: Vec<String> = Vec::new();
    let mut i: usize = 0;
    while i < segments.len()
        invariant
            i <= segments@.len(),
            lines@.len() == i,
            forall|k: int|
                0 <= k < i ==> #[trigger] lines@[k]@ == segment_line(
                    segments@[k].start as int,
                    segments@[k].end as int,
                    segments@[k].text@,
                ),
        decreases segments@.len() - i,
    {
        lines.push(format_segment(&segments[i]));
        i = i + 1;
    }
    lines
}

} // verus!
