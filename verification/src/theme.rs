//! Output-mode and theme resolution, and ANSI color framing.
//!
//! The terminal probes themselves (TTY detection, platform color support,
//! environment opt-out) are external; the functions here take their results
//! as plain booleans and decide the mode and theme exactly once per
//! invocation.

use owo_colors::OwoColorize;
use vstd::prelude::*;

verus! {

/// Requested output mode, before TTY detection is applied.
pub enum OutputOpt {
    Auto,
    Text,
    Json,
}

/// Requested color mode, before terminal capabilities are applied.
pub enum ColorOpt {
    Auto,
    Always,
    Never,
}

/// Internal color mode mirroring [`ColorOpt`].
pub enum ColorMode {
    Auto,
    Always,
    Never,
}

/// Resolved output mode.
pub enum OutputMode {
    Text,
    Json,
}

/// Resolved presentation theme: whether to emit ANSI color, and whether
/// the status glyphs may use unicode.
#[derive(Clone, Copy, Debug)]
pub struct Theme {
    pub color: bool,
    pub unicode: bool,
    pub ok: &'static str,
    pub bad: &'static str,
}

/// The glyph pair for a unicode-capable or plain-ASCII terminal.
pub open spec fn spec_glyphs(unicode: bool) -> (Seq<char>, Seq<char>) {
    if unicode {
        ("\u{2714}"@, "\u{2718}"@)
    } else {
        ("[OK]"@, "[X]"@)
    }
}

/// A well-formed theme carries the glyph pair matching its unicode flag.
pub open spec fn theme_wf(t: Theme) -> bool {
    t.ok@ == spec_glyphs(t.unicode).0 && t.bad@ == spec_glyphs(t.unicode).1
}

/// Decides the output mode: an explicit request wins; `Auto` selects text
/// on a terminal and JSON otherwise.
pub fn resolve_output_mode(mode: OutputOpt, stdout_is_tty: bool) -> (r: OutputMode)
    ensures
        r == match mode {
            OutputOpt::Text => OutputMode::Text,
            OutputOpt::Json => OutputMode::Json,
            OutputOpt::Auto => if stdout_is_tty {
                OutputMode::Text
            } else {
                OutputMode::Json
            },
        },
{
    match mode {
        OutputOpt::Text => OutputMode::Text,
        OutputOpt::Json => OutputMode::Json,
        OutputOpt::Auto => {
            if stdout_is_tty {
                OutputMode::Text
            } else {
                OutputMode::Json
            }
        },
    }
}

/// Decides the theme: `Always`/`Never` force color; `Auto` uses color only
/// on a color-capable terminal without an environment opt-out. Unicode
/// glyphs are used exactly when stdout is a terminal.
pub fn resolve_theme(
    color_mode: ColorMode,
    stdout_is_tty: bool,
    supports_color: bool,
    no_color_env: bool,
) -> (t: Theme)
    ensures
        theme_wf(t),
        t.unicode == stdout_is_tty,
        t.color == match color_mode {
            ColorMode::Always => true,
            ColorMode::Never => false,
            ColorMode::Auto => stdout_is_tty && supports_color && !no_color_env,
        },
{
    let use_color = match color_mode {
        ColorMode::Always => true,
        ColorMode::Never => false,
        ColorMode::Auto => stdout_is_tty && supports_color && !no_color_env,
    };
    let unicode = stdout_is_tty;
    let (ok, bad) = if unicode {
        ("\u{2714}", "\u{2718}")
    } else {
        ("[OK]", "[X]")
    };
    Theme { color: use_color, unicode, ok, bad }
}

/// `s` framed in the ANSI green foreground escape and the default-color
/// reset.
pub open spec fn spec_green(s: Seq<char>) -> Seq<char> {
    "\u{1b}[32m"@ + s + "\u{1b}[39m"@
}

/// `s` framed in the ANSI red foreground escape and the default-color
/// reset.
pub open spec fn spec_red(s: Seq<char>) -> Seq<char> {
    "\u{1b}[31m"@ + s + "\u{1b}[39m"@
}

/// `s` framed in the ANSI yellow foreground escape and the default-color
/// reset.
pub open spec fn spec_yellow(s: Seq<char>) -> Seq<char> {
    "\u{1b}[33m"@ + s + "\u{1b}[39m"@
}

/// Relies on owo_colors' `OwoColorize::green` for `&str`: its `Display`
/// writes `"\x1b[32m"`, the text verbatim, then `"\x1b[39m"`.
#[verifier::external_body]
pub fn paint_green(s: &str) -> (r: String)
    ensures
        r@ == spec_green(s@),
{
    format!("{}", s.green())
}

/// Relies on owo_colors' `OwoColorize::red` for `&str`: its `Display`
/// writes `"\x1b[31m"`, the text verbatim, then `"\x1b[39m"`.
#[verifier::external_body]
pub fn paint_red(s: &str) -> (r: String)
    ensures
        r@ == spec_red(s@),
{
    format!("{}", s.red())
}

/// Relies on owo_colors' `OwoColorize::yellow` for `&str`: its `Display`
/// writes `"\x1b[33m"`, the text verbatim, then `"\x1b[39m"`.
#[verifier::external_body]
pub fn paint_yellow(s: &str) -> (r: String)
    ensures
        r@ == spec_yellow(s@),
{
    format!("{}", s.yellow())
}

} // verus!
