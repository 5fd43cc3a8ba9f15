//! Cell rendering: the colored glyph string that summarizes a repository's
//! change counts, and the delimited join of a branch-name list.

use crate::status::Changes;
use owo_colors::OwoColorize;
use vstd::prelude::*;

verus! {

/// The glyph marking one changed path in the report.
pub open spec fn glyph() -> char {
    '\u{2022}'
}

/// `n` copies of the change glyph.
pub open spec fn glyph_run(n: nat) -> Seq<char> {
    Seq::new(n, |i: int| glyph())
}

/// The escape sequence that switches the foreground color to yellow.
pub open spec fn ansi_yellow() -> Seq<char> {
    seq!['\u{1b}', '[', '3', '3', 'm']
}

/// The escape sequence that switches the foreground color to green.
pub open spec fn ansi_green() -> Seq<char> {
    seq!['\u{1b}', '[', '3', '2', 'm']
}

/// The escape sequence that switches the foreground color to red.
pub open spec fn ansi_red() -> Seq<char> {
    seq!['\u{1b}', '[', '3', '1', 'm']
}

/// The escape sequence that restores the default foreground color.
pub open spec fn ansi_reset_fg() -> Seq<char> {
    seq!['\u{1b}', '[', '3', '9', 'm']
}

/// Relies on owo_colors' Display wrapper for the Yellow color: it writes the
/// yellow foreground escape, the text itself, and the foreground reset.
#[verifier::external_body]
fn paint_yellow(text: &str) -> (r: String)
    ensures
        r@ == ansi_yellow() + text@ + ansi_reset_fg(),
{
    format!("{}", text.yellow())
}

/// Relies on owo_colors' Display wrapper for the Green color: it writes the
/// green foreground escape, the text itself, and the foreground reset.
#[verifier::external_body]
fn paint_green(text: &str) -> (r: String)
    ensures
        r@ == ansi_green() + text@ + ansi_reset_fg(),
{
    format!("{}", text.green())
}

/// Relies on owo_colors' Display wrapper for the Red color: it writes the
/// red foreground escape, the text itself, and the foreground reset.
#[verifier::external_body]
fn paint_red(text: &str) -> (r: String)
    ensures
        r@ == ansi_red() + text@ + ansi_reset_fg(),
{
    format!("{}", text.red())
}

/// `n` copies of the change glyph, as an owned string.
pub fn repeat_glyph(n: usize) -> (r: String)
    ensures
        r@ == glyph_run(n as nat),
{
    let mut out = String::new();
    let mut i: usize = 0;
    while i < n
        invariant
            0 <= i <= n,
            out@ == glyph_run(i as nat),
        decreases n - i,
    {
        out.append("\u{2022}");
        proof {
            reveal_strlit("\u{2022}");
            assert(out@ =~= glyph_run((i + 1) as nat));
        }
        i = i + 1;
    }
    out
}

/// The glyph string a repository's change summary renders to: one glyph per
/// modified path in yellow, then one per new path in green, then one per
/// deleted path in red.
pub open spec fn sparkline_spec(c: Changes) -> Seq<char> {
    ansi_yellow() + glyph_run(c.modified as nat) + ansi_reset_fg() + ansi_green() + glyph_run(
        c.new as nat,
    ) + ansi_reset_fg() + ansi_red() + glyph_run(c.deleted as nat) + ansi_reset_fg()
}

/// Renders the change summary as its colored glyph string, in the fixed
/// order modified, new, deleted.
pub fn changes_sparkline(changes: &Changes) -> (r: String)
    ensures
        r@ == sparkline_spec(*changes),
{
    let modified_part = repeat_glyph(changes.modified);
    let new_part = repeat_glyph(changes.new);
    let deleted_part = repeat_glyph(changes.deleted);
    let mut out = paint_yellow(modified_part.as_str());
    let green_text = paint_green(new_part.as_str());
    let red_text = paint_red(deleted_part.as_str());
    out.append(green_text.as_str());
    out.append(red_text.as_str());
    proof {
        assert(out@ =~= sparkline_spec(*changes));
    }
    out
}

/// The delimiter between joined branch names.
pub open spec fn comma_sep() -> Seq<char> {
    seq![',', ' ']
}

/// The names of `parts` joined with the comma delimiter, in order.
pub open spec fn joined(parts: Seq<Seq<char>>) -> Seq<char>
    decreases parts.len(),
{
    if parts.len() == 0 {
        Seq::empty()
    } else if parts.len() == 1 {
        parts[0]
    } else {
        joined(parts.drop_last()) + comma_sep() + parts.last()
    }
}

/// Joins a list of branch names into one comma-delimited cell, in order.
pub fn join_names(names: &Vec<String>) -> (r: String)
    ensures
        r@ == joined(names@.map_values(|s: String| s@)),
{
    let mut out = String::new();
    let mut i: usize = 0;
    while i < names.len()
        invariant
            0 <= i <= names@.len(),
            out@ == joined(names@.map_values(|s: String| s@).take(i as int)),
        decreases names@.len() - i,
    {
        if i > 0 {
            out.append(", ");
        }
        out.append(names[i].as_str());
        proof {
            let parts = names@.map_values(|s: String| s@);
            assert(parts.take(i + 1).drop_last() =~= parts.take(i as int));
            assert(parts.take(i + 1).last() == parts[i as int]);
            reveal_strlit(", ");
            assert(", "@ =~= comma_sep());
            assert(out@ =~= joined(parts.take(i + 1)));
        }
        i = i + 1;
    }
    proof {
        let parts = names@.map_values(|s: String| s@);
        assert(parts.take(parts.len() as int) =~= parts);
    }
    out
}

} // verus!
