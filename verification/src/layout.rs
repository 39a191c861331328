//! Display-width aware text layout for the report.
//!
//! Terminal display width: CJK full-width characters count 2 columns, all
//! others 1.  East Asian "ambiguous" characters such as `★` (U+2605) count 1,
//! as `unicode-width` does by default; a terminal that draws them double-wide
//! shifts the label column by one space, but no number changes.
use vstd::prelude::*;
use vstd::string::*;

verus! {

/// Width of the label column of the summary rows.
pub const LABEL_WIDTH: usize = 17;
/// Display width of every section rule.
pub const RULE_WIDTH: usize = 46;
/// Column width (in characters) of a value followed by its reference value.
pub const VALUE_WIDTH: usize = 8;

/// Runs of at most this many pulls print their details unless told otherwise.
pub const DETAIL_THRESHOLD: u64 = 200;

/// Whether the report lists every 5★ and 4★: never with `summary_only`,
/// always with `detail` (the two are exclusive), otherwise only for a single
/// run of at most [`DETAIL_THRESHOLD`] pulls.
pub fn show_detail(pulls: u64, runs: u64, summary_only: bool, detail: bool) -> (r: bool)
    ensures
        r == if summary_only {
            false
        } else if detail {
            true
        } else {
            runs <= 1 && pulls <= DETAIL_THRESHOLD
        },
{
    if summary_only {
        false
    } else if detail {
        true
    } else {
        runs <= 1 && pulls <= DETAIL_THRESHOLD
    }
}

/// Code points drawn two columns wide.
pub open spec fn is_wide(cp: int) -> bool {
    ||| 0x1100 <= cp <= 0x115F
    ||| 0x2E80 <= cp <= 0x303E
    ||| 0x3041 <= cp <= 0x33FF
    ||| 0x3400 <= cp <= 0x4DBF
    ||| 0x4E00 <= cp <= 0x9FFF
    ||| 0xA000 <= cp <= 0xA4CF
    ||| 0xAC00 <= cp <= 0xD7A3
    ||| 0xF900 <= cp <= 0xFAFF
    ||| 0xFE30 <= cp <= 0xFE6F
    ||| 0xFF00 <= cp <= 0xFF60
    ||| 0xFFE0 <= cp <= 0xFFE6
    ||| 0x1F300 <= cp <= 0x1F64F
    ||| 0x1F900 <= cp <= 0x1F9FF
    ||| 0x20000 <= cp <= 0x3FFFD
}

/// Columns taken by `c`.
pub open spec fn char_width_spec(c: char) -> int {
    if is_wide(c as int) {
        2
    } else {
        1
    }
}

/// Columns taken by a text.
pub open spec fn display_width_spec(s: Seq<char>) -> int
    decreases s.len(),
{
    if s.len() == 0 {
        0
    } else {
        display_width_spec(s.drop_last()) + char_width_spec(s.last())
    }
}

/// `n` copies of `c`.
pub open spec fn repeated(c: char, n: int) -> Seq<char> {
    Seq::new(n as nat, |i: int| c)
}

/// `text` followed by enough spaces to take at least `width` columns.
pub open spec fn padded(text: Seq<char>, width: int) -> Seq<char> {
    let w = display_width_spec(text);
    if w >= width {
        text
    } else {
        text + repeated(' ', width - w)
    }
}

/// `text` followed by enough spaces to be at least `width` characters long.
pub open spec fn left_aligned(text: Seq<char>, width: int) -> Seq<char> {
    if text.len() >= width {
        text
    } else {
        text + repeated(' ', width - text.len())
    }
}

/// The opening of a section rule: `── title `.
pub open spec fn rule_head(title: Seq<char>) -> Seq<char> {
    "── "@ + title + " "@
}

/// A section rule: its head followed by `─` up to [`RULE_WIDTH`] columns.
pub open spec fn rule_spec(title: Seq<char>) -> Seq<char> {
    let head = rule_head(title);
    let w = display_width_spec(head);
    head + repeated('─', if w >= RULE_WIDTH { 0 } else { RULE_WIDTH - w })
}

/// A text's width is at least one column per character and at most two.
pub proof fn lemma_display_width_bounds(s: Seq<char>)
    ensures
        s.len() <= display_width_spec(s) <= 2 * s.len(),
    decreases s.len(),
{
    if s.len() > 0 {
        lemma_display_width_bounds(s.drop_last());
    }
}

/// The width of two texts put together is the sum of their widths.
pub proof fn lemma_display_width_concat(a: Seq<char>, b: Seq<char>)
    ensures
        display_width_spec(a + b) == display_width_spec(a) + display_width_spec(b),
    decreases b.len(),
{
    if b.len() == 0 {
        assert(a + b == a);
    } else {
        lemma_display_width_concat(a, b.drop_last());
        assert((a + b).drop_last() == a + b.drop_last());
        assert((a + b).last() == b.last());
    }
}

/// `n` copies of a one-column character take `n` columns.
pub proof fn lemma_display_width_repeated(c: char, n: int)
    requires
        0 <= n,
        char_width_spec(c) == 1,
    ensures
        display_width_spec(repeated(c, n)) == n,
    decreases n,
{
    if n > 0 {
        lemma_display_width_repeated(c, n - 1);
        assert(repeated(c, n).drop_last() == repeated(c, n - 1));
    }
}

/// Columns taken by `c`.
pub fn char_width(c: char) -> (w: usize)
    ensures
        w == char_width_spec(c),
{
    let cp = c as u32;
    let wide = (0x1100 <= cp && cp <= 0x115F) || (0x2E80 <= cp && cp <= 0x303E) || (0x3041 <= cp
        && cp <= 0x33FF) || (0x3400 <= cp && cp <= 0x4DBF) || (0x4E00 <= cp && cp <= 0x9FFF) || (
    0xA000 <= cp && cp <= 0xA4CF) || (0xAC00 <= cp && cp <= 0xD7A3) || (0xF900 <= cp && cp
        <= 0xFAFF) || (0xFE30 <= cp && cp <= 0xFE6F) || (0xFF00 <= cp && cp <= 0xFF60) || (0xFFE0
        <= cp && cp <= 0xFFE6) || (0x1F300 <= cp && cp <= 0x1F64F) || (0x1F900 <= cp && cp
        <= 0x1F9FF) || (0x20000 <= cp && cp <= 0x3FFFD);
    if wide {
        2
    } else {
        1
    }
}

/// Columns taken by `text`.
pub fn display_width(text: &str) -> (w: usize)
    requires
        2 * text@.len() <= usize::MAX,
    ensures
        w == display_width_spec(text@),
{
    let n = text.unicode_len();
    let mut w: usize = 0;
    let mut i: usize = 0;
    while i < n
        invariant
            n == text@.len(),
            2 * n <= usize::MAX,
            i <= n,
            w == display_width_spec(text@.subrange(0, i as int)),
        decreases n - i,
    {
        proof {
            lemma_display_width_bounds(text@.subrange(0, i as int));
        }
        let c = text.get_char(i);
        w = w + char_width(c);
        i = i + 1;
        assert(text@.subrange(0, i as int).drop_last() == text@.subrange(0, i - 1));
    }
    assert(text@.subrange(0, n as int) == text@);
    w
}

/// Appends `n` copies of the one-character text `piece` to `out`.
pub(crate) fn append_repeated(out: &mut String, piece: &str, n: usize)
    requires
        piece@.len() == 1,
    ensures
        final(out)@ == old(out)@ + repeated(piece@[0], n as int),
{
    let mut k: usize = 0;
    while k < n
        invariant
            piece@.len() == 1,
            k <= n,
            out@ == old(out)@ + repeated(piece@[0], k as int),
        decreases n - k,
    {
        let ghost before = out@;
        out.append(piece);
        k = k + 1;
        assert(out@ == old(out)@ + repeated(piece@[0], k as int)) by {
            assert(before + piece@ == old(out)@ + repeated(piece@[0], k as int));
        }
    }
}

/// `text` followed by spaces up to `width` columns; a text already as wide is kept whole.
pub fn pad_display(text: &str, width: usize) -> (r: String)
    requires
        2 * text@.len() <= usize::MAX,
    ensures
        r@ == padded(text@, width as int),
{
    let w = display_width(text);
    let mut out = String::from_str(text);
    if w < width {
        proof {
            reveal_strlit(" ");
        }
        append_repeated(&mut out, " ", width - w);
    }
    out
}

/// A padded text takes exactly `width` columns, or its own width when wider.
pub proof fn law_padded_width(text: Seq<char>, width: int)
    ensures
        display_width_spec(padded(text, width)) == if display_width_spec(text) >= width {
            display_width_spec(text)
        } else {
            width
        },
{
    let w = display_width_spec(text);
    if w < width {
        assert(char_width_spec(' ') == 1);
        lemma_display_width_repeated(' ', width - w);
        lemma_display_width_concat(text, repeated(' ', width - w));
    }
}

/// A section rule `── title ───…` that takes [`RULE_WIDTH`] columns.
pub fn rule(title: &str) -> (r: String)
    requires
        2 * (title@.len() + 4) <= usize::MAX,
    ensures
        r@ == rule_spec(title@),
{
    proof {
        reveal_strlit("── ");
        reveal_strlit(" ");
        reveal_strlit("─");
    }
    let mut head = String::from_str("── ");
    head.append(title);
    head.append(" ");
    let w = display_width(head.as_str());
    let pad = if w >= RULE_WIDTH {
        0
    } else {
        RULE_WIDTH - w
    };
    append_repeated(&mut head, "─", pad);
    head
}

/// Every section rule takes [`RULE_WIDTH`] columns, unless its title alone is wider.
pub proof fn law_rule_width(title: Seq<char>)
    ensures
        display_width_spec(rule_spec(title)) == if display_width_spec(rule_head(title))
            >= RULE_WIDTH {
            display_width_spec(rule_head(title))
        } else {
            RULE_WIDTH as int
        },
{
    reveal_strlit("─");
    let head = rule_head(title);
    let w = display_width_spec(head);
    let pad = if w >= RULE_WIDTH { 0 } else { RULE_WIDTH - w };
    assert(char_width_spec('─') == 1);
    lemma_display_width_repeated('─', pad);
    lemma_display_width_concat(head, repeated('─', pad));
}

/// The summary row `label: value`, the label padded to [`LABEL_WIDTH`] columns.
pub open spec fn row_spec(label: Seq<char>, value: Seq<char>) -> Seq<char> {
    padded(label, LABEL_WIDTH as int) + ": "@ + value + "\n"@
}

/// Appends the summary row `label: value` to `out`, the label padded to
/// [`LABEL_WIDTH`] columns.
pub fn row(out: &mut String, label: &str, value: &str)
    requires
        2 * label@.len() <= usize::MAX,
    ensures
        final(out)@ == old(out)@ + row_spec(label@, value@),
{
    let cell = pad_display(label, LABEL_WIDTH);
    out.append(cell.as_str());
    out.append(": ");
    out.append(value);
    out.append("\n");
    assert(out@ =~= old(out)@ + row_spec(label@, value@));
}

/// `text` preceded by enough spaces to be at least `width` characters long.
pub open spec fn right_aligned(text: Seq<char>, width: int) -> Seq<char> {
    if text.len() >= width {
        text
    } else {
        repeated(' ', width - text.len()) + text
    }
}

/// `text`, left-aligned in `width` characters (as `{:<width}` formats).
pub fn left_align(text: String, width: usize) -> (r: String)
    ensures
        r@ == left_aligned(text@, width as int),
{
    let mut out = text;
    let n = out.as_str().unicode_len();
    if n < width {
        proof {
            reveal_strlit(" ");
        }
        append_repeated(&mut out, " ", width - n);
    }
    out
}

/// `text`, right-aligned in `width` characters (as `{:>width}` formats).
pub fn right_align(text: String, width: usize) -> (r: String)
    ensures
        r@ == right_aligned(text@, width as int),
{
    let n = text.as_str().unicode_len();
    if n < width {
        let mut out = String::new();
        proof {
            reveal_strlit(" ");
        }
        append_repeated(&mut out, " ", width - n);
        out.append(text.as_str());
        assert(out@ =~= right_aligned(text@, width as int));
        out
    } else {
        text
    }
}

/// The decimal digit `d`.
pub open spec fn digit_char(d: int) -> char {
    if d == 0 {
        '0'
    } else if d == 1 {
        '1'
    } else if d == 2 {
        '2'
    } else if d == 3 {
        '3'
    } else if d == 4 {
        '4'
    } else if d == 5 {
        '5'
    } else if d == 6 {
        '6'
    } else if d == 7 {
        '7'
    } else if d == 8 {
        '8'
    } else {
        '9'
    }
}

/// The decimal numeral of `n`, without leading zeros.
pub open spec fn decimal_spec(n: nat) -> Seq<char>
    decreases n,
{
    if n < 10 {
        seq![digit_char(n as int)]
    } else {
        decimal_spec(n / 10).push(digit_char((n % 10) as int))
    }
}

/// `10^k`.
pub open spec fn pow10(k: nat) -> nat
    decreases k,
{
    if k == 0 {
        1
    } else {
        10 * pow10((k - 1) as nat)
    }
}

/// A number below `10^k` (`k ≥ 1`) has at most `k` digits.
pub proof fn lemma_decimal_len(n: nat, k: nat)
    requires
        k >= 1,
        n < pow10(k),
    ensures
        1 <= decimal_spec(n).len() <= k,
    decreases k,
{
    if n >= 10 {
        let q = pow10((k - 1) as nat);
        assert(k >= 2) by {
            if k == 1 {
                assert(pow10(0) == 1);
            }
        }
        assert(n / 10 < q) by (nonlinear_arith)
            requires
                n < 10 * q,
        ;
        lemma_decimal_len(n / 10, (k - 1) as nat);
    }
}

/// A `u64` has at most 20 digits.
pub proof fn lemma_u64_decimal_len(n: u64)
    ensures
        1 <= decimal_spec(n as nat).len() <= 20,
{
    reveal_with_fuel(pow10, 21);
    assert(pow10(20) == 100_000_000_000_000_000_000);
    lemma_decimal_len(n as nat, 20);
}

/// The one-character text of the digit `d`.
fn digit_str(d: u64) -> (r: &'static str)
    requires
        d < 10,
    ensures
        r@ == seq![digit_char(d as int)],
{
    proof {
        reveal_strlit("0");
        reveal_strlit("1");
        reveal_strlit("2");
        reveal_strlit("3");
        reveal_strlit("4");
        reveal_strlit("5");
        reveal_strlit("6");
        reveal_strlit("7");
        reveal_strlit("8");
        reveal_strlit("9");
    }
    if d == 0 {
        "0"
    } else if d == 1 {
        "1"
    } else if d == 2 {
        "2"
    } else if d == 3 {
        "3"
    } else if d == 4 {
        "4"
    } else if d == 5 {
        "5"
    } else if d == 6 {
        "6"
    } else if d == 7 {
        "7"
    } else if d == 8 {
        "8"
    } else {
        "9"
    }
}

/// The decimal numeral of `n` (as `{}` formats an integer).
pub fn decimal(n: u64) -> (r: String)
    ensures
        r@ == decimal_spec(n as nat),
    decreases n,
{
    if n < 10 {
        String::from_str(digit_str(n))
    } else {
        let mut s = decimal(n / 10);
        s.append(digit_str(n % 10));
        s
    }
}

/// `text` wrapped in the escape sequence `ESC [ code m … ESC [ 0 m` when `enabled`.
pub open spec fn painted(enabled: bool, code: Seq<char>, text: Seq<char>) -> Seq<char> {
    if enabled {
        "\x1b["@ + code + "m"@ + text + "\x1b[0m"@
    } else {
        text
    }
}

/// `value`, left-aligned in [`VALUE_WIDTH`] characters, followed by `[理论 theory]`.
pub fn with_theory(value: String, theory: &str) -> (r: String)
    ensures
        r@ == left_aligned(value@, VALUE_WIDTH as int) + "[理论 "@ + theory@ + "]"@,
{
    let mut out = value;
    let n = out.as_str().unicode_len();
    if n < VALUE_WIDTH {
        proof {
            reveal_strlit(" ");
        }
        append_repeated(&mut out, " ", VALUE_WIDTH - n);
    }
    out.append("[理论 ");
    out.append(theory);
    out.append("]");
    out
}

/// Minimal ANSI colouring; when disabled, text passes through unchanged.
pub struct Painter {
    /// Whether colour escapes are written.
    pub enabled: bool,
}

impl Painter {
    /// A painter that colours when `enabled`.
    pub fn new(enabled: bool) -> (p: Self)
        ensures
            p.enabled == enabled,
    {
        Painter { enabled }
    }

    /// `text` wrapped in the escape sequence `ESC [ code m … ESC [ 0 m` when enabled.
    pub fn paint(&self, code: &str, text: &str) -> (r: String)
        ensures
            r@ == painted(self.enabled, code@, text@),
    {
        if self.enabled {
            let mut out = String::from_str("\x1b[");
            out.append(code);
            out.append("m");
            out.append(text);
            out.append("\x1b[0m");
            out
        } else {
            String::from_str(text)
        }
    }

    /// `text` in bold.
    pub fn bold(&self, text: &str) -> (r: String)
        ensures
            r@ == painted(self.enabled, "1"@, text@),
    {
        self.paint("1", text)
    }

    /// `text` in cyan.
    pub fn cyan(&self, text: &str) -> (r: String)
        ensures
            r@ == painted(self.enabled, "36"@, text@),
    {
        self.paint("36", text)
    }
}

} // verus!
