//! Screen regions and their text form `x,y,width,height`, as given on the
//! command line and as handed back by the region-selection process.

use vstd::prelude::*;
use vstd::string::StringExecFns;
use crate::numbers::{
    i32_outcome, u32_outcome, parse_i32, parse_u32, IntParseError, lemma_decimal_digits,
    lemma_decimal_reads_back, lemma_signed_decimal_reads_back, is_digit,
};
use crate::text::{
    decimal, signed_decimal, split_on, trimmed, trim_start, trim_end, lacks, is_whitespace,
    decimal_string, signed_decimal_string, push_char, split_on_char, trim_whitespace, concatenate,
    lemma_split_on_extend, lemma_split_on_join,
};

verus! {

broadcast use vstd::string::group_string_axioms;

/// A rectangular screen region.
#[derive(Clone, Copy, Debug, PartialEq, Eq, Structural)]
pub struct Region {
    pub x: i32,
    pub y: i32,
    pub width: u32,
    pub height: u32,
}

/// Result of the selection overlay.
#[derive(Clone, Copy, Debug, PartialEq, Eq, Structural)]
pub enum SelectionResult {
    /// User selected a region.
    Selected(Region),
    /// User cancelled (Escape).
    Cancelled,
}

// ---------------------------------------------------------------------------
// Text form
// ---------------------------------------------------------------------------

/// `x,y,width,height` in decimal.
pub open spec fn region_text(r: Region) -> Seq<char> {
    signed_decimal(r.x as int) + seq![','] + signed_decimal(r.y as int) + seq![','] + decimal(
        r.width as nat,
    ) + seq![','] + decimal(r.height as nat)
}

/// Renders a region as `x,y,width,height`.
pub fn format_region(r: Region) -> (s: String)
    ensures
        s@ == region_text(r),
{
    let mut s = signed_decimal_string(r.x);
    push_char(&mut s, ',');
    let y = signed_decimal_string(r.y);
    s.append(y.as_str());
    push_char(&mut s, ',');
    let w = decimal_string(r.width as u64);
    s.append(w.as_str());
    push_char(&mut s, ',');
    let h = decimal_string(r.height as u64);
    s.append(h.as_str());
    s
}

/// Reading the four fields `x`, `y`, `width`, `height` in this order: the
/// region, or the position of the first field that does not read and why.
pub open spec fn fields_outcome(p: Seq<Seq<char>>) -> Result<Region, (int, IntParseError)> {
    match i32_outcome(p[0]) {
        Err(e) => Err((0, e)),
        Ok(x) => match i32_outcome(p[1]) {
            Err(e) => Err((1, e)),
            Ok(y) => match u32_outcome(p[2]) {
                Err(e) => Err((2, e)),
                Ok(w) => match u32_outcome(p[3]) {
                    Err(e) => Err((3, e)),
                    Ok(h) => Ok(Region { x, y, width: w, height: h }),
                },
            },
        },
    }
}

fn read_fields(parts: &Vec<String>) -> (r: Result<Region, (usize, IntParseError)>)
    requires
        parts@.len() == 4,
    ensures
        match r {
            Ok(reg) => fields_outcome(parts@.map_values(|p: String| p@)) == Ok::<
                Region,
                (int, IntParseError),
            >(reg),
            Err((i, e)) => fields_outcome(parts@.map_values(|p: String| p@)) == Err::<
                Region,
                (int, IntParseError),
            >((i as int, e)),
        },
{
    let ghost p = parts@.map_values(|p: String| p@);
    assert(p[0] == parts@[0]@ && p[1] == parts@[1]@ && p[2] == parts@[2]@ && p[3] == parts@[3]@);
    let x = match parse_i32(parts[0].as_str()) {
        Ok(v) => v,
        Err(e) => return Err((0, e)),
    };
    let y = match parse_i32(parts[1].as_str()) {
        Ok(v) => v,
        Err(e) => return Err((1, e)),
    };
    let width = match parse_u32(parts[2].as_str()) {
        Ok(v) => v,
        Err(e) => return Err((2, e)),
    };
    let height = match parse_u32(parts[3].as_str()) {
        Ok(v) => v,
        Err(e) => return Err((3, e)),
    };
    Ok(Region { x, y, width, height })
}

/// The name of field `i` in `x,y,width,height`.
pub open spec fn field_label(i: int) -> Seq<char> {
    if i == 0 {
        "x"@
    } else if i == 1 {
        "y"@
    } else if i == 2 {
        "width"@
    } else {
        "height"@
    }
}

fn field_label_string(i: usize) -> (s: String)
    ensures
        s@ == field_label(i as int),
{
    if i == 0 {
        String::from_str("x")
    } else if i == 1 {
        String::from_str("y")
    } else if i == 2 {
        String::from_str("width")
    } else {
        String::from_str("height")
    }
}

/// What the command line's `--region` value gives: the region, or the
/// message that rejects it.
pub open spec fn region_arg_outcome(s: Seq<char>) -> Result<Region, Seq<char>> {
    let parts = split_on(s, ',');
    if parts.len() != 4 {
        Err("expected format: x,y,width,height"@)
    } else {
        match fields_outcome(parts) {
            Ok(r) => Ok(r),
            Err((i, e)) => Err("bad "@ + field_label(i) + ": "@ + e.text()),
        }
    }
}

/// A `Result` whose error text is taken by its view.
pub open spec fn text_result<T>(r: Result<T, String>) -> Result<T, Seq<char>> {
    match r {
        Ok(v) => Ok(v),
        Err(m) => Err(m@),
    }
}

/// Parses the command line's `--region x,y,width,height`.
pub fn parse_region(s: &str) -> (r: Result<Region, String>)
    ensures
        text_result(r) == region_arg_outcome(s@),
{
    let parts = split_on_char(s, ',');
    if parts.len() != 4 {
        return Err(String::from_str("expected format: x,y,width,height"));
    }
    match read_fields(&parts) {
        Ok(reg) => Ok(reg),
        Err((i, e)) => {
            let mut m = String::from_str("bad ");
            let label = field_label_string(i);
            m.append(label.as_str());
            m.append(": ");
            let text = e.message();
            m.append(text.as_str());
            Err(m)
        },
    }
}

// ---------------------------------------------------------------------------
// The selection process's reply
// ---------------------------------------------------------------------------

/// The text that the selection process writes for its outcome (`None` when
/// the overlay itself failed).
pub open spec fn selection_reply_text(outcome: Option<SelectionResult>) -> Seq<char> {
    match outcome {
        Some(SelectionResult::Selected(r)) => region_text(r),
        Some(SelectionResult::Cancelled) => "cancelled"@,
        None => "error"@,
    }
}

/// Renders the selection process's reply.
pub fn format_selection_reply(outcome: Option<SelectionResult>) -> (s: String)
    ensures
        s@ == selection_reply_text(outcome),
{
    match outcome {
        Some(SelectionResult::Selected(r)) => format_region(r),
        Some(SelectionResult::Cancelled) => String::from_str("cancelled"),
        None => String::from_str("error"),
    }
}

/// How the recorder reads the selection process's reply: `Ok(None)` when no
/// region was chosen, `Ok(Some(r))` for a region, and an error message when
/// the reply is malformed.
pub open spec fn selection_reply_outcome(s: Seq<char>) -> Result<Option<Region>, Seq<char>> {
    if s == "cancelled"@ || s == "error"@ || s.len() == 0 {
        Ok(None)
    } else {
        let parts = split_on(trimmed(s), ',');
        if parts.len() != 4 {
            Err("invalid selection result: "@ + s)
        } else {
            match fields_outcome(parts) {
                Ok(r) => Ok(Some(r)),
                Err((i, e)) => Err(e.text()),
            }
        }
    }
}

/// Reads the selection process's reply.
pub fn parse_selection_reply(reply: &str) -> (r: Result<Option<Region>, String>)
    ensures
        text_result(r) == selection_reply_outcome(reply@),
{
    let owned = String::from_str(reply);
    let cancelled = String::from_str("cancelled");
    let error = String::from_str("error");
    if owned == cancelled || owned == error || reply.is_empty() {
        return Ok(None);
    }
    let t = trim_whitespace(reply);
    let parts = split_on_char(t.as_str(), ',');
    if parts.len() != 4 {
        return Err(concatenate("invalid selection result: ", reply));
    }
    match read_fields(&parts) {
        Ok(reg) => Ok(Some(reg)),
        Err((_i, e)) => Err(e.message()),
    }
}

// ---------------------------------------------------------------------------
// Laws
// ---------------------------------------------------------------------------

proof fn lemma_decimal_lacks_comma(n: nat)
    ensures
        lacks(decimal(n), ','),
        decimal(n).len() >= 1,
        is_digit(decimal(n)[0]),
        is_digit(decimal(n).last()),
{
    lemma_decimal_digits(n);
    assert forall|i: int| 0 <= i < decimal(n).len() implies decimal(n)[i] != ',' by {
        assert(is_digit(decimal(n)[i]));
    }
}

proof fn lemma_signed_decimal_shape(v: int)
    ensures
        lacks(signed_decimal(v), ','),
        signed_decimal(v).len() >= 1,
        is_digit(signed_decimal(v)[0]) || signed_decimal(v)[0] == '-',
        is_digit(signed_decimal(v).last()),
{
    if v < 0 {
        let d = decimal((-v) as nat);
        lemma_decimal_lacks_comma((-v) as nat);
        let s = signed_decimal(v);
        assert(s.last() == d.last());
        assert forall|i: int| 0 <= i < s.len() implies s[i] != ',' by {
            if i > 0 {
                assert(s[i] == d[i - 1]);
            }
        }
    } else {
        lemma_decimal_lacks_comma(v as nat);
    }
}

proof fn lemma_region_text_pieces(r: Region)
    ensures
        split_on(region_text(r), ',') == seq![
            signed_decimal(r.x as int),
            signed_decimal(r.y as int),
            decimal(r.width as nat),
            decimal(r.height as nat),
        ],
{
    let a = signed_decimal(r.x as int);
    let b = signed_decimal(r.y as int);
    let c = decimal(r.width as nat);
    let d = decimal(r.height as nat);
    lemma_signed_decimal_shape(r.x as int);
    lemma_signed_decimal_shape(r.y as int);
    lemma_decimal_lacks_comma(r.width as nat);
    lemma_decimal_lacks_comma(r.height as nat);
    lemma_split_on_extend(Seq::<char>::empty(), a, ',');
    assert(Seq::<char>::empty() + a =~= a);
    assert(split_on(Seq::<char>::empty(), ',') == seq![Seq::<char>::empty()]);
    assert(split_on(a, ',') =~= seq![a]);
    lemma_split_on_join(seq![a], a, b, ',');
    assert(seq![a].push(b) =~= seq![a, b]);
    lemma_split_on_join(seq![a, b], a.push(',') + b, c, ',');
    assert(seq![a, b].push(c) =~= seq![a, b, c]);
    lemma_split_on_join(seq![a, b, c], (a.push(',') + b).push(',') + c, d, ',');
    assert(seq![a, b, c].push(d) =~= seq![a, b, c, d]);
    assert(((a.push(',') + b).push(',') + c).push(',') + d =~= region_text(r));
}

proof fn lemma_fields_read_back(r: Region)
    ensures
        fields_outcome(split_on(region_text(r), ',')) == Ok::<Region, (int, IntParseError)>(r),
{
    lemma_region_text_pieces(r);
    lemma_signed_decimal_reads_back(r.x);
    lemma_signed_decimal_reads_back(r.y);
    lemma_decimal_reads_back(r.width);
    lemma_decimal_reads_back(r.height);
}

/// The text form of a region is read back as the same region by `--region`.
pub proof fn lemma_region_arg_round_trip(r: Region)
    ensures
        region_arg_outcome(region_text(r)) == Ok::<Region, Seq<char>>(r),
{
    lemma_region_text_pieces(r);
    lemma_fields_read_back(r);
}

/// The region text has no whitespace at either end, so trimming keeps it.
proof fn lemma_region_text_trimmed(r: Region)
    ensures
        trimmed(region_text(r)) == region_text(r),
        region_text(r).len() >= 1,
        is_digit(region_text(r)[0]) || region_text(r)[0] == '-',
{
    let s = region_text(r);
    let a = signed_decimal(r.x as int);
    let d = decimal(r.height as nat);
    lemma_signed_decimal_shape(r.x as int);
    lemma_decimal_lacks_comma(r.height as nat);
    assert(s[0] == a[0]);
    assert(s.last() == d.last());
    assert(!is_whitespace(s[0]));
    assert(trim_start(s) == s);
    assert(!is_whitespace(s.last()));
    assert(trim_end(s) == s);
}

/// What the selection process writes is read back by the recorder as the
/// region it selected, or as "no region" when it was cancelled or failed.
pub proof fn lemma_selection_reply_round_trip(outcome: Option<SelectionResult>)
    ensures
        selection_reply_outcome(selection_reply_text(outcome)) == Ok::<
            Option<Region>,
            Seq<char>,
        >(
            match outcome {
                Some(SelectionResult::Selected(r)) => Some(r),
                _ => None,
            },
        ),
{
    match outcome {
        Some(SelectionResult::Selected(r)) => {
            let s = region_text(r);
            lemma_region_text_trimmed(r);
            lemma_fields_read_back(r);
            reveal_strlit("cancelled");
            reveal_strlit("error");
            assert(s != "cancelled"@) by {
                assert("cancelled"@[0] == 'c');
            }
            assert(s != "error"@) by {
                assert("error"@[0] == 'e');
            }
            assert(s.len() != 0);
            assert(split_on(trimmed(s), ',') == split_on(s, ','));
            lemma_region_text_pieces(r);
            assert(split_on(s, ',').len() == 4);
            assert(fields_outcome(split_on(s, ',')) == Ok::<Region, (int, IntParseError)>(r));
        },
        _ => {},
    }
}

} // verus!
