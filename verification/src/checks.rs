//! Health/readiness sub-check modelling and rendering: humanized check
//! names and the indented status-line layout shared by health, readiness,
//! and payment-wait reporting.
//!
//! The aggregate `ok` flag is authoritative as reported by the server and
//! is never recomputed from the individual checks.

use vstd::prelude::*;
use vstd::string::StrSliceExecFns;
use vstd::string::StringExecFns;

use crate::strutil::find_char;
use crate::strutil::str_eq;
use crate::theme::spec_green;
use crate::theme::spec_red;
use crate::theme::paint_green;
use crate::theme::paint_red;
use crate::theme::Theme;

verus! {

/// A single health/readiness sub-check as reported by the daemon.
/// Order of checks is significant and preserved verbatim.
pub struct HealthCheckDto {
    /// Machine-readable check name.
    pub name: String,
    /// Whether the check passed.
    pub ok: bool,
    /// Optional short detail.
    pub detail: Option<String>,
    /// Optional user-actionable hint.
    pub hint: Option<String>,
}

/// Aggregate result of health, readiness, and other `{ok, checks}` calls.
/// `ok` is the server's verdict; it need not equal the conjunction of the
/// individual checks.
pub struct OkResponse {
    /// Whether the operation succeeded, as decided by the server.
    pub ok: bool,
    /// Optional sub-checks explaining how `ok` was determined.
    pub checks: Vec<HealthCheckDto>,
}

/// `s` split on `sep`: always one more part than there are separators,
/// with empty parts where separators are adjacent.
pub open spec fn spec_split(s: Seq<char>, sep: char) -> Seq<Seq<char>>
    decreases s.len(),
{
    if s.len() == 0 {
        seq![Seq::<char>::empty()]
    } else if s[0] == sep {
        seq![Seq::<char>::empty()] + spec_split(s.skip(1), sep)
    } else {
        let rest = spec_split(s.skip(1), sep);
        seq![seq![s[0]] + rest[0]] + rest.skip(1)
    }
}

proof fn lemma_split_len(s: Seq<char>, sep: char)
    ensures
        spec_split(s, sep).len() >= 1,
    decreases s.len(),
{
    if s.len() > 0 {
        lemma_split_len(s.skip(1), sep);
    }
}

proof fn lemma_split_at_first(s: Seq<char>, sep: char, i: int)
    requires
        0 <= i < s.len(),
        s[i] == sep,
        forall|j: int| 0 <= j < i ==> s[j] != sep,
    ensures
        spec_split(s, sep) =~= seq![s.take(i)] + spec_split(s.skip(i + 1), sep),
    decreases i,
{
    lemma_split_len(s.skip(1), sep);
    if i == 0 {
        assert(s.take(0) =~= Seq::<char>::empty());
        assert(s.skip(1) =~= s.skip(i + 1));
    } else {
        lemma_split_at_first(s.skip(1), sep, i - 1);
        lemma_split_len(s.skip(1).skip(i), sep);
        assert(s.skip(1).take(i - 1) =~= s.take(i).skip(1));
        assert(seq![s[0]] + s.take(i).skip(1) =~= s.take(i));
        assert(s.skip(1).skip(i) =~= s.skip(i + 1));
    }
}

proof fn lemma_split_no_sep(s: Seq<char>, sep: char)
    requires
        forall|j: int| 0 <= j < s.len() ==> s[j] != sep,
    ensures
        spec_split(s, sep) =~= seq![s],
    decreases s.len(),
{
    if s.len() > 0 {
        assert(s[0] != sep);
        lemma_split_no_sep(s.skip(1), sep);
        let rest = spec_split(s.skip(1), sep);
        assert(rest =~= seq![s.skip(1)]);
        assert(rest[0] == s.skip(1));
        assert(rest.skip(1) =~= Seq::<Seq<char>>::empty());
        assert(seq![s[0]] + s.skip(1) =~= s);
        assert(spec_split(s, sep) == seq![seq![s[0]] + rest[0]] + rest.skip(1));
        assert(seq![seq![s[0]] + rest[0]] + rest.skip(1) =~= seq![seq![s[0]] + rest[0]]);
    } else {
        assert(s =~= Seq::<char>::empty());
    }
}

/// The Unicode uppercase mapping of `c` (one or more characters); what
/// std's `char::to_uppercase` yields.
pub uninterp spec fn upper_of(c: char) -> Seq<char>;

/// The upper-case form of an ASCII lowercase letter; other characters are
/// unchanged.
pub open spec fn ascii_upper(c: char) -> char {
    if 'a' <= c <= 'z' {
        ((c as u32) - 32) as char
    } else {
        c
    }
}

/// Relies on std's `char::to_uppercase`: the Unicode uppercase mapping of
/// the character, a pure function of it; ASCII letters `a` to `z` map to
/// `A` to `Z`.
#[verifier::external_body]
fn char_upper(c: char) -> (r: String)
    ensures
        r@ == upper_of(c),
        r@.len() >= 1,
        'a' <= c <= 'z' ==> r@ =~= seq![ascii_upper(c)],
{
    c.to_uppercase().collect()
}

/// A word with its first character upper-cased by the Unicode mapping.
pub open spec fn spec_capitalize(w: Seq<char>) -> Seq<char> {
    if w.len() == 0 {
        w
    } else {
        upper_of(w[0]) + w.skip(1)
    }
}

/// The fixed upper-case rendering of a known acronym word, if any.
pub open spec fn spec_acronym(w: Seq<char>) -> Option<Seq<char>> {
    if w == "http"@ {
        Some("HTTP"@)
    } else if w == "api"@ {
        Some("API"@)
    } else if w == "p2p"@ {
        Some("P2P"@)
    } else if w == "rgb"@ {
        Some("RGB"@)
    } else if w == "ldk"@ {
        Some("LDK"@)
    } else {
        None
    }
}

/// A name word as displayed: known acronyms in full upper case, other
/// words capitalized.
pub open spec fn spec_word_out(w: Seq<char>) -> Seq<char> {
    match spec_acronym(w) {
        Some(a) => a,
        None => spec_capitalize(w),
    }
}

/// The displayed words of a split name: empty parts dropped, the rest
/// transformed by [`spec_word_out`], order kept.
pub open spec fn spec_words_out(parts: Seq<Seq<char>>) -> Seq<Seq<char>>
    decreases parts.len(),
{
    if parts.len() == 0 {
        Seq::empty()
    } else if parts[0].len() == 0 {
        spec_words_out(parts.skip(1))
    } else {
        seq![spec_word_out(parts[0])] + spec_words_out(parts.skip(1))
    }
}

/// Words joined with single spaces.
pub open spec fn spec_join_sp(parts: Seq<Seq<char>>) -> Seq<char>
    decreases parts.len(),
{
    if parts.len() == 0 {
        Seq::empty()
    } else if parts.len() == 1 {
        parts[0]
    } else {
        parts[0] + seq![' '] + spec_join_sp(parts.skip(1))
    }
}

/// The generic humanized form of a check name: split on `'_'`, drop empty
/// parts, upper-case known acronyms, capitalize other words, join with
/// spaces; a name with no non-empty parts is shown as-is.
pub open spec fn spec_humanize(name: Seq<char>) -> Seq<char> {
    let out = spec_join_sp(spec_words_out(spec_split(name, '_')));
    if out.len() == 0 {
        name
    } else {
        out
    }
}

/// The human label for a check name: fixed labels for the well-known
/// checks, the humanized form otherwise.
pub open spec fn spec_display_name(name: Seq<char>) -> Seq<char> {
    if name == "http_server"@ {
        "HTTP Server"@
    } else if name == "node_is_running"@ {
        "Lightning Node"@
    } else if name == "p2p_is_listening"@ {
        "P2P Listener"@
    } else if name == "best_block_height_known"@ {
        "Best Block Height"@
    } else {
        spec_humanize(name)
    }
}

fn capitalize_word(w: &str) -> (r: String)
    ensures
        r@ == spec_capitalize(w@),
{
    let n = w.unicode_len();
    if n == 0 {
        return String::new();
    }
    let mut r = char_upper(w.get_char(0));
    r.append(w.substring_char(1, n));
    proof {
        assert(r@ =~= spec_capitalize(w@));
    }
    r
}

fn word_out(w: &str) -> (r: String)
    ensures
        r@ == spec_word_out(w@),
{
    if str_eq(w, "http") {
        "HTTP".to_owned()
    } else if str_eq(w, "api") {
        "API".to_owned()
    } else if str_eq(w, "p2p") {
        "P2P".to_owned()
    } else if str_eq(w, "rgb") {
        "RGB".to_owned()
    } else if str_eq(w, "ldk") {
        "LDK".to_owned()
    } else {
        capitalize_word(w)
    }
}

fn split_words(s: &str, sep: char) -> (r: Vec<String>)
    ensures
        r.deep_view() =~= spec_split(s@, sep),
    decreases s@.len(),
{
    let n = s.unicode_len();
    match find_char(s, sep) {
        None => {
            let mut r: Vec<String> = Vec::new();
            r.push(s.to_owned());
            proof {
                lemma_split_no_sep(s@, sep);
            }
            r
        },
        Some(i) => {
            let head = s.substring_char(0, i).to_owned();
            let tail = s.substring_char(i + 1, n);
            let mut rest = split_words(tail, sep);
            rest.insert(0, head);
            proof {
                lemma_split_at_first(s@, sep, i as int);
                assert(rest.deep_view() =~= seq![s@.take(i as int)] + spec_split(
                    s@.skip(i + 1),
                    sep,
                ));
            }
            rest
        },
    }
}

fn words_out(words: &Vec<String>, i: usize) -> (r: Vec<String>)
    requires
        i <= words.len(),
    ensures
        r.deep_view() =~= spec_words_out(words.deep_view().skip(i as int)),
    decreases words.len() - i,
{
    if i == words.len() {
        Vec::new()
    } else {
        let mut rest = words_out(words, i + 1);
        proof {
            assert(words.deep_view().skip(i as int).skip(1) =~= words.deep_view().skip(i + 1));
        }
        if words[i].as_str().is_empty() {
            rest
        } else {
            let w = word_out(words[i].as_str());
            rest.insert(0, w);
            rest
        }
    }
}

fn join_spaced(words: &Vec<String>, i: usize) -> (r: String)
    requires
        i <= words.len(),
    ensures
        r@ == spec_join_sp(words.deep_view().skip(i as int)),
    decreases words.len() - i,
{
    if i == words.len() {
        String::new()
    } else if i + 1 == words.len() {
        proof {
            assert(words.deep_view().skip(i as int)[0] == words@[i as int]@);
        }
        words[i].clone()
    } else {
        let mut r = words[i].clone();
        r.append(" ");
        let rest = join_spaced(words, i + 1);
        r.append(rest.as_str());
        proof {
            reveal_strlit(" ");
            assert(" "@ =~= seq![' ']);
            assert(words.deep_view().skip(i as int).skip(1) =~= words.deep_view().skip(i + 1));
            assert(r@ =~= spec_join_sp(words.deep_view().skip(i as int)));
        }
        r
    }
}

/// Humanizes an unrecognized check name generically: underscore-separated
/// words are capitalized (known acronyms fully upper-cased) and joined
/// with spaces.
pub fn humanize_check_name(name: &str) -> (r: String)
    ensures
        r@ == spec_humanize(name@),
{
    let words = split_words(name, '_');
    let out_words = words_out(&words, 0);
    let out = join_spaced(&out_words, 0);
    proof {
        assert(words.deep_view().skip(0) =~= words.deep_view());
        assert(out_words.deep_view().skip(0) =~= out_words.deep_view());
    }
    if out.as_str().is_empty() {
        name.to_owned()
    } else {
        out
    }
}

/// Maps a machine-readable check name to its display label.
pub fn display_check_name(name: &str) -> (r: String)
    ensures
        r@ == spec_display_name(name@),
{
    if str_eq(name, "http_server") {
        "HTTP Server".to_owned()
    } else if str_eq(name, "node_is_running") {
        "Lightning Node".to_owned()
    } else if str_eq(name, "p2p_is_listening") {
        "P2P Listener".to_owned()
    } else if str_eq(name, "best_block_height_known") {
        "Best Block Height".to_owned()
    } else {
        humanize_check_name(name)
    }
}

/// The status glyph for a passing or failing entry.
pub open spec fn spec_glyph(t: Theme, good: bool) -> Seq<char> {
    if good {
        t.ok@
    } else {
        t.bad@
    }
}

/// A status fragment, colored green or red when the theme colors output.
pub open spec fn spec_painted(color: bool, good: bool, s: Seq<char>) -> Seq<char> {
    if !color {
        s
    } else if good {
        spec_green(s)
    } else {
        spec_red(s)
    }
}

/// The overall status line: glyph (colored by the aggregate verdict) and
/// title.
pub open spec fn spec_title_line(t: Theme, title: Seq<char>, ok: bool) -> Seq<char> {
    spec_painted(t.color, ok, spec_glyph(t, ok)) + seq![' '] + title
}

/// The detail text of a check; an absent detail equals an empty one.
pub open spec fn spec_detail(c: HealthCheckDto) -> Seq<char> {
    match c.detail {
        Some(d) => d@,
        None => Seq::empty(),
    }
}

/// One indented line per check: glyph, humanized name, and `": detail"`
/// when a non-empty detail was reported.
pub open spec fn spec_check_line(t: Theme, c: HealthCheckDto) -> Seq<char> {
    let base = "  "@ + spec_painted(t.color, c.ok, spec_glyph(t, c.ok)) + seq![' ']
        + spec_display_name(c.name@);
    if spec_detail(c).len() == 0 {
        base
    } else {
        base + ": "@ + spec_detail(c)
    }
}

/// The line(s) a single check contributes: its status line, followed by an
/// indented hint line when the check failed and carries a hint. A passing
/// check's hint is not shown.
pub open spec fn spec_check_block(t: Theme, c: HealthCheckDto) -> Seq<Seq<char>> {
    if c.ok {
        seq![spec_check_line(t, c)]
    } else {
        match c.hint {
            Some(h) => seq![spec_check_line(t, c), "      hint: "@ + h@],
            None => seq![spec_check_line(t, c)],
        }
    }
}

/// The lines of all checks, in server-reported order.
pub open spec fn spec_check_blocks(t: Theme, checks: Seq<HealthCheckDto>) -> Seq<Seq<char>>
    decreases checks.len(),
{
    if checks.len() == 0 {
        Seq::empty()
    } else {
        spec_check_block(t, checks[0]) + spec_check_blocks(t, checks.skip(1))
    }
}

proof fn lemma_check_blocks_snoc(t: Theme, checks: Seq<HealthCheckDto>, i: int)
    requires
        0 <= i < checks.len(),
    ensures
        spec_check_blocks(t, checks.take(i + 1)) =~= spec_check_blocks(t, checks.take(i))
            + spec_check_block(t, checks[i]),
    decreases i,
{
    if i == 0 {
        assert(checks.take(1) =~= seq![checks[0]]);
        assert(checks.take(1).skip(1) =~= Seq::<HealthCheckDto>::empty());
        assert(checks.take(0) =~= Seq::<HealthCheckDto>::empty());
    } else {
        assert(checks.take(i + 1)[0] == checks[0]);
        assert(checks.take(i + 1).skip(1) =~= checks.skip(1).take(i));
        assert(checks.take(i).skip(1) =~= checks.skip(1).take(i - 1));
        assert(checks.take(i)[0] == checks[0]);
        lemma_check_blocks_snoc(t, checks.skip(1), i - 1);
        assert(checks.skip(1)[i - 1] == checks[i]);
    }
}

/// The full report of an `{ok, checks}` result: status line plus one block
/// per check.
pub open spec fn spec_check_report(
    t: Theme,
    title: Seq<char>,
    ok: bool,
    checks: Seq<HealthCheckDto>,
) -> Seq<Seq<char>> {
    seq![spec_title_line(t, title, ok)] + spec_check_blocks(t, checks)
}

/// Colors a status fragment according to the theme and verdict.
pub fn paint_status(t: Theme, good: bool, s: &str) -> (r: String)
    ensures
        r@ == spec_painted(t.color, good, s@),
{
    if !t.color {
        s.to_owned()
    } else if good {
        paint_green(s)
    } else {
        paint_red(s)
    }
}

/// Renders an aggregate result with its sub-checks as display lines: the
/// title line, then one indented line per check in reported order, with a
/// hint line beneath each failing check that carries one. The aggregate
/// verdict is the server's `ok`, never recomputed from the checks.
pub fn render_checks(theme: Theme, title: &str, ok: bool, checks: &Vec<HealthCheckDto>) -> (r: Vec<
    String,
>)
    ensures
        r.deep_view() == spec_check_report(theme, title@, ok, checks@),
{
    let mut r: Vec<String> = Vec::new();
    let glyph = if ok {
        theme.ok
    } else {
        theme.bad
    };
    let mut line = paint_status(theme, ok, glyph);
    line.append(" ");
    line.append(title);
    proof {
        reveal_strlit(" ");
        assert(" "@ =~= seq![' ']);
        assert(line@ =~= spec_title_line(theme, title@, ok));
    }
    r.push(line);
    let mut i: usize = 0;
    while i < checks.len()
        invariant
            i <= checks.len(),
            r.deep_view() =~= seq![spec_title_line(theme, title@, ok)] + spec_check_blocks(
                theme,
                checks@.take(i as int),
            ),
        decreases checks.len() - i,
    {
        let c = &checks[i];
        let sym = if c.ok {
            theme.ok
        } else {
            theme.bad
        };
        let mut line = "  ".to_owned();
        line.append(paint_status(theme, c.ok, sym).as_str());
        line.append(" ");
        line.append(display_check_name(c.name.as_str()).as_str());
        match &c.detail {
            Some(d) => {
                if !d.as_str().is_empty() {
                    line.append(": ");
                    line.append(d.as_str());
                }
            },
            None => {},
        }
        proof {
            reveal_strlit(" ");
            assert(" "@ =~= seq![' ']);
            assert(line@ =~= spec_check_line(theme, checks@[i as int]));
        }
        let ghost prev = r.deep_view();
        r.push(line);
        if !c.ok {
            match &c.hint {
                Some(h) => {
                    let mut hl = "      hint: ".to_owned();
                    hl.append(h.as_str());
                    proof {
                        assert(hl@ == "      hint: "@ + h@);
                    }
                    r.push(hl);
                },
                None => {},
            }
        }
        proof {
            assert(r.deep_view() =~= prev + spec_check_block(theme, checks@[i as int]));
        }
        proof {
            lemma_check_blocks_snoc(theme, checks@, i as int);
            assert(r.deep_view() =~= seq![spec_title_line(theme, title@, ok)]
                + spec_check_blocks(theme, checks@.take(i + 1)));
        }
        i += 1;
    }
    proof {
        assert(checks@.take(checks@.len() as int) =~= checks@);
    }
    r
}

/// The process exit code a readiness command reports: zero exactly when
/// the server's aggregate verdict is ok.
pub fn ready_exit_code(ok: bool) -> (r: i32)
    ensures
        r == if ok {
            0int
        } else {
            1int
        },
{
    if ok {
        0
    } else {
        1
    }
}

} // verus!
