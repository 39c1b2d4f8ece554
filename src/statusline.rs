//! Assembly of the status line from rendered segments.
use vstd::prelude::*;
use crate::config::SegmentConfig;
use crate::segment::{SegmentData, SegmentStyle};
use crate::text::{concat_str, decimal, decimal_string, str_eq};

verus! {

/// The escape sequence that selects the segment's colour, if it has one:
/// the palette colour wins over the 24-bit one.
pub open spec fn color_prefix(style: SegmentStyle) -> Seq<char> {
    match style.color_256 {
        Some(c) => "\x1b[38;5;"@ + decimal(c as nat) + "m"@,
        None => match style.color {
            Some((r, g, b)) => "\x1b[38;2;"@ + decimal(r as nat) + ";"@ + decimal(g as nat) + ";"@
                + decimal(b as nat) + "m"@,
            None => Seq::empty(),
        },
    }
}

/// A segment as it appears on the terminal: colour, bold, text, reset.
pub open spec fn formatted_segment(style: SegmentStyle, text: Seq<char>) -> Seq<char> {
    color_prefix(style) + (if style.bold {
        "\x1b[1m"@
    } else {
        Seq::empty()
    }) + text + "\x1b[0m"@
}

fn color_code(style: &SegmentStyle) -> (r: String)
    ensures
        r@ == color_prefix(*style),
{
    match style.color_256 {
        Some(c) => {
            let n = decimal_string(c as u64);
            let a = concat_str("\x1b[38;5;", n.as_str());
            concat_str(a.as_str(), "m")
        },
        None => match style.color {
            Some((r, g, b)) => {
                let rs = decimal_string(r as u64);
                let gs = decimal_string(g as u64);
                let bs = decimal_string(b as u64);
                let a = concat_str("\x1b[38;2;", rs.as_str());
                let a = concat_str(a.as_str(), ";");
                let a = concat_str(a.as_str(), gs.as_str());
                let a = concat_str(a.as_str(), ";");
                let a = concat_str(a.as_str(), bs.as_str());
                concat_str(a.as_str(), "m")
            },
            None => String::new(),
        },
    }
}

/// Wrap a segment's text in its colour and weight.
pub fn format_segment(data: &SegmentData) -> (r: String)
    ensures
        r@ == formatted_segment(data.style, data.text@),
{
    let mut out = color_code(&data.style);
    if data.style.bold {
        out = concat_str(out.as_str(), "\x1b[1m");
    }
    let out = concat_str(out.as_str(), data.text.as_str());
    concat_str(out.as_str(), "\x1b[0m")
}

/// Whether the first configured segment named `id` is enabled; a segment
/// that is not configured is off.
pub open spec fn enabled_in(segments: Seq<SegmentConfig>, id: Seq<char>) -> bool
    decreases segments.len(),
{
    if segments.len() == 0 {
        false
    } else if segments[0].id@ == id {
        segments[0].enabled
    } else {
        enabled_in(segments.drop_first(), id)
    }
}

/// Is the segment `id` enabled in `segments`?
pub fn is_enabled(segments: &Vec<SegmentConfig>, id: &str) -> (r: bool)
    ensures
        r == enabled_in(segments@, id@),
{
    let mut i: usize = 0;
    assert(segments@.subrange(0, segments@.len() as int) =~= segments@);
    while i < segments.len()
        invariant
            i <= segments.len(),
            enabled_in(segments@, id@) == enabled_in(
                segments@.subrange(i as int, segments@.len() as int),
                id@,
            ),
        decreases segments.len() - i,
    {
        let ghost rest = segments@.subrange(i as int, segments@.len() as int);
        assert(rest[0] == segments@[i as int]);
        if str_eq(segments[i].id.as_str(), id) {
            return segments[i].enabled;
        }
        assert(rest.drop_first() =~= segments@.subrange(i + 1, segments@.len() as int));
        i = i + 1;
    }
    false
}

/// The parts in order, with `sep` between two neighbours.
pub open spec fn joined(parts: Seq<Seq<char>>, sep: Seq<char>) -> Seq<char>
    decreases parts.len(),
{
    if parts.len() == 0 {
        Seq::empty()
    } else if parts.len() == 1 {
        parts[0]
    } else {
        joined(parts.drop_last(), sep) + sep + parts.last()
    }
}

/// The views of a list of strings.
pub open spec fn strings_view(parts: Seq<String>) -> Seq<Seq<char>> {
    parts.map_values(|p: String| p@)
}

/// Join the rendered segments with the configured separator.
pub fn join_parts(parts: &Vec<String>, sep: &str) -> (r: String)
    ensures
        r@ == joined(strings_view(parts@), sep@),
{
    if parts.len() == 0 {
        return String::new();
    }
    let mut out = String::from_str(parts[0].as_str());
    let mut i: usize = 1;
    assert(strings_view(parts@).subrange(0, 1).drop_last() =~= Seq::<Seq<char>>::empty());
    while i < parts.len()
        invariant
            1 <= i <= parts.len(),
            out@ == joined(strings_view(parts@).subrange(0, i as int), sep@),
        decreases parts.len() - i,
    {
        let ghost pv = strings_view(parts@);
        assert(pv.subrange(0, i + 1).drop_last() =~= pv.subrange(0, i as int));
        let with_sep = concat_str(out.as_str(), sep);
        out = concat_str(with_sep.as_str(), parts[i].as_str());
        i = i + 1;
    }
    assert(strings_view(parts@).subrange(0, parts@.len() as int) =~= strings_view(parts@));
    out
}

} // verus!
