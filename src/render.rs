use vstd::prelude::*;
use vstd::string::StringExecFns;
use color_eyre::owo_colors::OwoColorize;
use crate::text::{append_decimal, append_repeated, decimal, repeated};

verus! {

/// The control sequence that sets the foreground to 24-bit colour (r, g, b).
pub open spec fn ansi_rgb_prefix(r: u8, g: u8, b: u8) -> Seq<char> {
    seq!['\x1b', '[', '3', '8', ';', '2', ';'] + decimal(r as nat) + seq![';'] + decimal(g as nat)
        + seq![';'] + decimal(b as nat) + seq!['m']
}

/// The control sequence that restores the default foreground.
pub open spec fn ansi_fg_reset() -> Seq<char> {
    seq!['\x1b', '[', '3', '9', 'm']
}

/// Relies on owo_colors' `OwoColorize::color` with an `Rgb` colour, turned
/// into a `String`: the text between the 24-bit foreground sequence and the
/// foreground reset.
#[verifier::external_body]
fn paint_rgb(text: &str, r: u8, g: u8, b: u8) -> (res: String)
    ensures
        res@ == ansi_rgb_prefix(r, g, b) + text@ + ansi_fg_reset(),
{
    text.color(color_eyre::owo_colors::Rgb(r, g, b)).to_string()
}

/// The health that the bar shows: clamped into `[0, 100]`.
pub open spec fn shown_health(health: u64) -> nat {
    if health > 100 { 100 } else { health as nat }
}

/// Filled glyphs of the health bar.
pub open spec fn filled_glyphs(health: u64) -> nat {
    shown_health(health) / 2
}

/// Empty glyphs of the health bar.
pub open spec fn empty_glyphs(health: u64) -> nat {
    ((100 - shown_health(health)) as nat) / 2
}

/// The glyph counts of the health bar: (filled, empty).
pub fn health_bar_counts(health: u64) -> (r: (u64, u64))
    ensures
        r.0 == filled_glyphs(health),
        r.1 == empty_glyphs(health),
        r.0 + r.1 <= 50,
{
    let shown: u64 = if health > 100 { 100 } else { health };
    (shown / 2, (100 - shown) / 2)
}

pub open spec fn filled_glyph() -> Seq<char> {
    seq!['\u{25a0}']
}

pub open spec fn empty_glyph() -> Seq<char> {
    seq!['\u{25a1}']
}

/// The two runs of the health bar: filled glyphs, then empty glyphs.
pub fn health_bar_glyphs(health: u64) -> (r: (String, String))
    ensures
        r.0@ == repeated(filled_glyph(), filled_glyphs(health)),
        r.1@ == repeated(empty_glyph(), empty_glyphs(health)),
{
    proof {
        reveal_strlit("\u{25a0}");
        reveal_strlit("\u{25a1}");
    }
    assert("\u{25a0}"@ =~= filled_glyph());
    assert("\u{25a1}"@ =~= empty_glyph());
    let (filled, empty) = health_bar_counts(health);
    let mut full = String::new();
    append_repeated(&mut full, "\u{25a0}", filled);
    let mut rest = String::new();
    append_repeated(&mut rest, "\u{25a1}", empty);
    assert(full@ =~= repeated(filled_glyph(), filled_glyphs(health)));
    assert(rest@ =~= repeated(empty_glyph(), empty_glyphs(health)));
    (full, rest)
}

/// For a health whose shown value is even, the bar always has fifty glyphs.
pub proof fn lemma_health_bar_total(health: u64)
    requires
        shown_health(health) % 2 == 0,
    ensures
        filled_glyphs(health) + empty_glyphs(health) == 50,
{
}

/// Green intensity of the option at `index` out of `count`: it grows with
/// the index.
pub open spec fn option_green(index: nat, count: nat) -> nat {
    (255nat / (count + 1)) * (index + 2)
}

/// One line of the options listing, before colouring: `"<n>: <option>\n"`.
pub open spec fn option_line(index: nat, option: Seq<char>) -> Seq<char> {
    decimal(index + 1) + seq![':', ' '] + option + seq!['\n']
}

/// The options listing up to (excluding) `k`, each line coloured.
pub open spec fn options_listing_upto(options: Seq<Seq<char>>, k: nat) -> Seq<char>
    decreases k,
{
    if k == 0 {
        Seq::empty()
    } else {
        let i = (k - 1) as nat;
        options_listing_upto(options, i)
            + ansi_rgb_prefix(0, option_green(i, options.len()) as u8, 0)
            + option_line(i, options[i as int])
            + ansi_fg_reset()
    }
}

pub open spec fn options_listing(options: Seq<Seq<char>>) -> Seq<char> {
    options_listing_upto(options, options.len())
}

proof fn lemma_green_fits(index: nat, count: nat)
    requires
        index < count,
    ensures
        option_green(index, count) <= 255,
{
    let q: nat = 255nat / (count + 1);
    assert(q * (count + 1) <= 255) by (nonlinear_arith)
        requires q == 255nat / (count + 1), count + 1 > 0;
    assert(q * (index + 2) <= q * (count + 1)) by (nonlinear_arith)
        requires index + 2 <= count + 1;
}

/// Appends the numbered, coloured listing of `options` to `s`.
pub fn append_options_listing(s: &mut String, options: &Vec<String>)
    ensures
        final(s)@ == old(s)@ + options_listing(options@.map_values(|o: String| o@)),
{
    let ghost opts = options@.map_values(|o: String| o@);
    let ghost start = s@;
    let count = options.len();
    let mut i: usize = 0;
    while i < count
        invariant
            count == options@.len(),
            opts == options@.map_values(|o: String| o@),
            i <= count,
            s@ == start + options_listing_upto(opts, i as nat),
        decreases count - i,
    {
        proof {
            lemma_green_fits(i as nat, count as nat);
            reveal_strlit(": ");
            reveal_strlit("\n");
        }
        let step: u64 = if count >= 255 {
            assert(255nat / (count as nat + 1) == 0) by (nonlinear_arith)
                requires count >= 255;
            0
        } else {
            255 / (count as u64 + 1)
        };
        let green: u64 = if step == 0 { 0 } else { step * (i as u64 + 2) };
        let mut line = String::new();
        append_decimal(&mut line, i as u64 + 1);
        line.append(": ");
        line.append(options[i].as_str());
        line.append("\n");
        assert(line@ =~= option_line(i as nat, opts[i as int]));
        let painted = paint_rgb(line.as_str(), 0, green as u8, 0);
        s.append(painted.as_str());
        i = i + 1;
        assert(s@ =~= start + options_listing_upto(opts, i as nat));
    }
}

} // verus!
