//! Reading the colour texts of a custom palette: `#rrggbb` and
//! `rgba(r, g, b, a)`. Everything but the alpha of an `rgba` colour is
//! read here; any text that is neither form reads as black.

use vstd::prelude::*;
use vstd::string::*;
use crate::text::{is_white_space, lemma_trim_bounds_unique, trim, trim_bounds, trimmed};
use crate::theme::{Rgba8, hex, rgb, taled_dark_colors, taled_dark_palette};

verus! {

/// A colour text after reading.
#[derive(Debug)]
pub enum CssColor {
    /// A colour read in full.
    Solid(Rgba8),
    /// An `rgba(..)` colour whose alpha text, trimmed, is left to read.
    Rgb { r: u8, g: u8, b: u8, alpha: String },
}

/// The value of a hexadecimal digit.
pub open spec fn hex_digit(c: char) -> Option<nat> {
    if '0' <= c && c <= '9' {
        Some((c as int - '0' as int) as nat)
    } else if 'a' <= c && c <= 'f' {
        Some((c as int - 'a' as int + 10) as nat)
    } else if 'A' <= c && c <= 'F' {
        Some((c as int - 'A' as int + 10) as nat)
    } else {
        None
    }
}

/// The value of a decimal digit.
pub open spec fn dec_digit(c: char) -> Option<nat> {
    if '0' <= c && c <= '9' {
        Some((c as int - '0' as int) as nat)
    } else {
        None
    }
}

/// The number that the digits `d` write in base `radix`, when every
/// character is a digit of that base.
pub open spec fn digits_value(d: Seq<char>, radix: nat) -> Option<nat>
    decreases d.len(),
{
    if d.len() == 0 {
        Some(0)
    } else {
        let digit = if radix == 16 {
            hex_digit(d.last())
        } else {
            dec_digit(d.last())
        };
        match (digits_value(d.drop_last(), radix), digit) {
            (Some(v), Some(x)) => Some(v * radix + x),
            _ => None,
        }
    }
}

/// The unsigned number a text writes in base `radix`, as Rust's integer
/// parsing reads it: an optional `+`, then at least one digit.
pub open spec fn number_text(t: Seq<char>, radix: nat) -> Option<nat> {
    let d = if t.len() > 0 && t[0] == '+' {
        t.drop_first()
    } else {
        t
    };
    if d.len() == 0 {
        None
    } else {
        digits_value(d, radix)
    }
}

/// A colour channel written in decimal; unreadable or too large reads as 0.
pub open spec fn channel_text(t: Seq<char>) -> u8 {
    match number_text(t, 10) {
        Some(v) => if v <= 255 {
            v as u8
        } else {
            0
        },
        None => 0,
    }
}

/// The colour after `#`: six hexadecimal digits (a leading `+` counts as
/// one of the six characters); anything else reads as black.
pub open spec fn hash_color(h: Seq<char>) -> Rgba8 {
    if h.len() == 6 {
        match number_text(h, 16) {
            Some(v) => rgb(v as u32),
            None => rgb(0),
        }
    } else {
        rgb(0)
    }
}

/// No comma in `s[a..b]`.
pub open spec fn comma_free(s: Seq<char>, a: int, b: int) -> bool {
    forall|k: int| a <= k < b ==> s[k] != ','
}

/// `s` has exactly three commas, at `i < j < k`.
pub open spec fn three_commas(s: Seq<char>, i: int, j: int, k: int) -> bool {
    &&& 0 <= i < j < k < s.len()
    &&& s[i] == ',' && s[j] == ',' && s[k] == ','
    &&& comma_free(s, 0, i)
    &&& comma_free(s, i + 1, j)
    &&& comma_free(s, j + 1, k)
    &&& comma_free(s, k + 1, s.len() as int)
}

/// The text starts with `rgba(` and ends with `)`.
pub open spec fn rgba_wrapped(t: Seq<char>) -> bool {
    t.len() >= 6 && t.subrange(0, 5) == "rgba("@ && t.last() == ')'
}

/// What a colour text reads as.
pub open spec fn css_color(s: Seq<char>) -> CssView {
    let t = trimmed(s);
    if t.len() > 0 && t[0] == '#' {
        CssView::Solid(hash_color(t.drop_first()))
    } else if rgba_wrapped(t) {
        let inner = t.subrange(5, t.len() - 1);
        if exists|i: int, j: int, k: int| three_commas(inner, i, j, k) {
            let (i, j, k) = choose|i: int, j: int, k: int| three_commas(inner, i, j, k);
            CssView::Rgb {
                r: channel_text(trimmed(inner.subrange(0, i))),
                g: channel_text(trimmed(inner.subrange(i + 1, j))),
                b: channel_text(trimmed(inner.subrange(j + 1, k))),
                alpha: trimmed(inner.subrange(k + 1, inner.len() as int)),
            }
        } else {
            CssView::Solid(rgb(0))
        }
    } else {
        CssView::Solid(rgb(0))
    }
}

/// The mathematical content of a read colour.
pub enum CssView {
    Solid(Rgba8),
    Rgb { r: u8, g: u8, b: u8, alpha: Seq<char> },
}

impl View for CssColor {
    type V = CssView;

    open spec fn view(&self) -> CssView {
        match self {
            CssColor::Solid(c) => CssView::Solid(*c),
            CssColor::Rgb { r, g, b, alpha } => CssView::Rgb { r: *r, g: *g, b: *b, alpha: alpha@ },
        }
    }
}

/// The three commas of a text are where they are.
pub proof fn lemma_three_commas_unique(s: Seq<char>, i1: int, j1: int, k1: int, i2: int, j2: int, k2: int)
    requires
        three_commas(s, i1, j1, k1),
        three_commas(s, i2, j2, k2),
    ensures
        i1 == i2 && j1 == j2 && k1 == k2,
{
    if i1 < i2 {
        assert(s[i1] != ',');
    } else if i2 < i1 {
        assert(s[i2] != ',');
    }
    if j1 < j2 {
        assert(s[j1] != ',');
    } else if j2 < j1 {
        assert(s[j2] != ',');
    }
    if k1 < k2 {
        assert(s[k1] != ',');
    } else if k2 < k1 {
        assert(s[k2] != ',');
    }
}

/// The value of `c` as a digit of base `radix` (10 or 16).
fn digit_value(c: char, radix: u32) -> (v: Option<u32>)
    requires
        radix == 10 || radix == 16,
    ensures
        match v {
            Some(x) => (if radix == 16 {
                hex_digit(c)
            } else {
                dec_digit(c)
            }) == Some(x as nat) && x < radix,
            None => (if radix == 16 {
                hex_digit(c)
            } else {
                dec_digit(c)
            }) is None,
        },
{
    if '0' <= c && c <= '9' {
        Some(c as u32 - '0' as u32)
    } else if radix == 16 && 'a' <= c && c <= 'f' {
        Some(c as u32 - 'a' as u32 + 10)
    } else if radix == 16 && 'A' <= c && c <= 'F' {
        Some(c as u32 - 'A' as u32 + 10)
    } else {
        None
    }
}

/// Reads an unsigned number of at most `limit`; `None` when the text is
/// not a number or the number is larger.
fn read_number(t: &str, radix: u32, limit: u32) -> (v: Option<u32>)
    requires
        radix == 10 || radix == 16,
        limit < 0x1000_0000,
    ensures
        match v {
            Some(x) => number_text(t@, radix as nat) == Some(x as nat) && x <= limit,
            None => match number_text(t@, radix as nat) {
                Some(n) => n > limit,
                None => true,
            },
        },
{
    let n = t.unicode_len();
    let start: usize = if n > 0 && t.get_char(0) == '+' {
        1
    } else {
        0
    };
    let ghost d = if t@.len() > 0 && t@[0] == '+' {
        t@.drop_first()
    } else {
        t@
    };
    assert(d =~= t@.subrange(start as int, n as int));
    if start >= n {
        return None;
    }
    let mut value: u32 = 0;
    let mut i: usize = start;
    while i < n
        invariant
            n == t@.len(),
            start <= i <= n,
            start < n,
            d == t@.subrange(start as int, n as int),
            d == (if t@.len() > 0 && t@[0] == '+' {
                t@.drop_first()
            } else {
                t@
            }),
            radix == 10 || radix == 16,
            limit < 0x1000_0000,
            value <= limit,
            digits_value(t@.subrange(start as int, i as int), radix as nat) == Some(value as nat),
        decreases n - i,
    {
        let c = t.get_char(i);
        let ghost pre = t@.subrange(start as int, i as int);
        assert(t@.subrange(start as int, i + 1).drop_last() =~= pre);
        assert(t@.subrange(start as int, i + 1).last() == c);
        match digit_value(c, radix) {
            None => {
                proof {
                    assert(d.subrange(0, (i - start + 1) as int) =~= t@.subrange(start as int, i + 1));
                    lemma_digits_prefix_none(d, radix as nat, (i - start + 1) as int);
                }
                return None;
            },
            Some(x) => {
                assert(value * radix + x <= 0x1000_0000 * 16) by (nonlinear_arith)
                    requires
                        value <= limit,
                        limit < 0x1000_0000,
                        radix <= 16,
                        x < radix,
                ;
                let next: u64 = value as u64 * radix as u64 + x as u64;
                if next > limit as u64 {
                    proof {
                        assert(d.subrange(0, (i - start + 1) as int) =~= t@.subrange(start as int, i + 1));
                        lemma_digits_grow(d, radix as nat, (i - start + 1) as int);
                    }
                    return None;
                }
                value = next as u32;
            },
        }
        i = i + 1;
    }
    proof {
        assert(t@.subrange(start as int, n as int) =~= d);
    }
    Some(value)
}

/// A prefix that is not a number makes the whole text not a number.
proof fn lemma_digits_prefix_none(d: Seq<char>, radix: nat, m: int)
    requires
        0 < m <= d.len(),
        digits_value(d.subrange(0, m), radix) is None,
    ensures
        digits_value(d, radix) is None,
    decreases d.len() - m,
{
    if m < d.len() {
        assert(d.subrange(0, m + 1).drop_last() =~= d.subrange(0, m));
        lemma_digits_prefix_none(d, radix, m + 1);
    } else {
        assert(d.subrange(0, m) =~= d);
    }
}

/// The number a text writes is at least the number its prefix writes.
proof fn lemma_digits_grow(d: Seq<char>, radix: nat, m: int)
    requires
        0 < m <= d.len(),
        radix >= 1,
        digits_value(d.subrange(0, m), radix) is Some,
    ensures
        match digits_value(d, radix) {
            Some(v) => v >= digits_value(d.subrange(0, m), radix)->Some_0,
            None => true,
        },
    decreases d.len() - m,
{
    if m < d.len() {
        let p = d.subrange(0, m + 1);
        assert(p.drop_last() =~= d.subrange(0, m));
        match digits_value(p, radix) {
            Some(v) => {
                let u = digits_value(d.subrange(0, m), radix)->Some_0;
                assert(v >= u * radix);
                assert(u * radix >= u) by (nonlinear_arith)
                    requires
                        radix >= 1,
                ;
                lemma_digits_grow(d, radix, m + 1);
            },
            None => {
                lemma_digits_prefix_none(d, radix, m + 1);
            },
        }
    } else {
        assert(d.subrange(0, m) =~= d);
    }
}

/// Reads a colour text.
pub fn parse_css_color_parts(s: &str) -> (c: CssColor)
    ensures
        c@ == css_color(s@),
{
    let t = trim(s);
    let n = t.unicode_len();
    if n > 0 && t.get_char(0) == '#' {
        let h = t.substring_char(1, n);
        proof {
            assert(h@ =~= t@.drop_first());
        }
        if n - 1 == 6 {
            match read_number(h, 16, 0xff_ffff) {
                Some(v) => {
                    return CssColor::Solid(hex(v));
                },
                None => {
                    proof {
                        if number_text(h@, 16) is Some {
                            lemma_six_hex_digits_fit(h@);
                        }
                    }
                    return CssColor::Solid(hex(0));
                },
            }
        }
        return CssColor::Solid(hex(0));
    }
    if n < 6 || t.get_char(n - 1) != ')' || !starts_with_rgba(t) {
        proof {
            reveal_strlit("rgba(");
            assert("rgba("@ =~= seq!['r', 'g', 'b', 'a', '(']);
            if n >= 6 && t@.last() == ')' && t@.subrange(0, 5) == "rgba("@ {
                assert(t@.subrange(0, 5)[0] == 'r');
                assert(t@.subrange(0, 5)[1] == 'g');
                assert(t@.subrange(0, 5)[2] == 'b');
                assert(t@.subrange(0, 5)[3] == 'a');
                assert(t@.subrange(0, 5)[4] == '(');
            }
        }
        return CssColor::Solid(hex(0));
    }
    proof {
        reveal_strlit("rgba(");
        assert("rgba("@ =~= seq!['r', 'g', 'b', 'a', '(']);
        assert(t@.subrange(0, 5) =~= "rgba("@);
    }
    let inner = t.substring_char(5, n - 1);
    let m = inner.unicode_len();
    let mut commas: Vec<usize> = Vec::new();
    let mut q: usize = 0;
    while q < m
        invariant
            m == inner@.len(),
            q <= m,
            commas@.len() <= 4,
            forall|a: int| 0 <= a < commas@.len() ==> commas@[a] < q && inner@[commas@[a] as int] == ',',
            forall|a: int, b: int| 0 <= a < b < commas@.len() ==> commas@[a] < commas@[b],
            commas@.len() < 4 ==> forall|p: int|
                0 <= p < q && inner@[p] == ',' ==> exists|a: int| 0 <= a < commas@.len() && commas@[a] == p,
        decreases m - q,
    {
        let ghost before = commas@;
        let c = inner.get_char(q);
        if commas.len() < 4 && c == ',' {
            commas.push(q);
        }
        proof {
            assert forall|p: int|
                0 <= p < q + 1 && inner@[p] == ',' && commas@.len() < 4 implies exists|a: int|
                    0 <= a < commas@.len() && commas@[a] == p by {
                if p == q {
                    assert(commas@[commas@.len() - 1] == q);
                } else {
                    let a = choose|a: int| 0 <= a < before.len() && before[a] == p;
                    assert(commas@[a] == p);
                }
            }
        }
        q = q + 1;
    }
    if commas.len() != 3 {
        proof {
            if exists|i: int, j: int, k: int| three_commas(inner@, i, j, k) {
                let (i, j, k) = choose|i: int, j: int, k: int| three_commas(inner@, i, j, k);
                if commas@.len() < 3 {
                    // Each of the three commas was recorded, so three were.
                    let ai = choose|a: int| 0 <= a < commas@.len() && commas@[a] == i;
                    let aj = choose|a: int| 0 <= a < commas@.len() && commas@[a] == j;
                    let ak = choose|a: int| 0 <= a < commas@.len() && commas@[a] == k;
                    assert(ai < aj < ak);
                } else {
                    // A fourth comma would lie outside the three.
                    let p = commas@[3] as int;
                    assert(inner@[p] == ',');
                    assert(commas@[0] < commas@[1] < commas@[2] < commas@[3]);
                    assert(p == i || p == j || p == k);
                }
            }
        }
        return CssColor::Solid(hex(0));
    }
    let i = commas[0];
    let j = commas[1];
    let k = commas[2];
    proof {
        assert(three_commas(inner@, i as int, j as int, k as int));
        let (i2, j2, k2) = choose|i2: int, j2: int, k2: int| three_commas(inner@, i2, j2, k2);
        lemma_three_commas_unique(inner@, i as int, j as int, k as int, i2, j2, k2);
    }
    let r = read_channel(inner.substring_char(0, i));
    let g = read_channel(inner.substring_char(i + 1, j));
    let b = read_channel(inner.substring_char(j + 1, k));
    let alpha = String::from_str(trim(inner.substring_char(k + 1, m)));
    CssColor::Rgb { r, g, b, alpha }
}

/// A trimmed decimal colour channel.
fn read_channel(t: &str) -> (v: u8)
    ensures
        v == channel_text(trimmed(t@)),
{
    match read_number(trim(t), 10, 255) {
        Some(x) => x as u8,
        None => 0,
    }
}

/// Whether the text starts with `rgba(`.
fn starts_with_rgba(t: &str) -> (b: bool)
    ensures
        b == (t@.len() >= 5 && t@[0] == 'r' && t@[1] == 'g' && t@[2] == 'b' && t@[3] == 'a' && t@[4] == '('),
{
    t.unicode_len() >= 5 && t.get_char(0) == 'r' && t.get_char(1) == 'g' && t.get_char(2) == 'b'
        && t.get_char(3) == 'a' && t.get_char(4) == '('
}

/// Six hexadecimal digits write a number below `0x1000000`.
proof fn lemma_six_hex_digits_fit(h: Seq<char>)
    requires
        h.len() == 6,
        number_text(h, 16) is Some,
    ensures
        number_text(h, 16)->Some_0 <= 0xff_ffff,
{
    let d = if h[0] == '+' {
        h.drop_first()
    } else {
        h
    };
    lemma_digits_bound(d, 16);
    reveal_with_fuel(pow16, 7);
    assert(pow16(6) == 0x100_0000);
    assert(pow16(5) == 0x10_0000);
}

/// `n` base-16 digits write a number below `16^n`.
proof fn lemma_digits_bound(d: Seq<char>, radix: nat)
    requires
        radix == 16,
        d.len() <= 6,
        digits_value(d, radix) is Some,
    ensures
        digits_value(d, radix)->Some_0 < pow16(d.len()),
    decreases d.len(),
{
    if d.len() > 0 {
        lemma_digits_bound(d.drop_last(), radix);
        let v = digits_value(d.drop_last(), radix)->Some_0;
        let x = hex_digit(d.last())->Some_0;
        assert(x < 16);
        assert(v * 16 + x < pow16(d.len())) by (nonlinear_arith)
            requires
                v < pow16((d.len() - 1) as nat),
                x < 16,
                pow16(d.len()) == pow16((d.len() - 1) as nat) * 16,
        ;
    }
}

/// Sixteen to the power `n`.
pub open spec fn pow16(n: nat) -> nat
    decreases n,
{
    if n == 0 {
        1
    } else {
        pow16((n - 1) as nat) * 16
    }
}


/// A text is white space at neither end when its ends are `#` and a
/// hexadecimal digit, so trimming keeps it whole.
proof fn lemma_hash_text_untrimmed(s: Seq<char>)
    requires
        s.len() == 7,
        s[0] == '#',
        hex_digit(s[6]) is Some,
    ensures
        trimmed(s) == s,
{
    assert(!is_white_space(s[0]));
    assert(!is_white_space(s[6]));
    assert(trim_bounds(s, 0, 7));
    let (a, b) = choose|a: int, b: int| trim_bounds(s, a, b);
    lemma_trim_bounds_unique(s, a, b, 0, 7);
    assert(s.subrange(0, 7) =~= s);
}

/// The value of a hexadecimal digit, 0 for any other character.
spec fn hex_value(c: char) -> nat {
    match hex_digit(c) {
        Some(v) => v,
        None => 0,
    }
}

/// Six hexadecimal digits write the number they spell.
proof fn lemma_six_hex_digits(h: Seq<char>)
    requires
        h.len() == 6,
        forall|i: int| 0 <= i < 6 ==> #[trigger] hex_digit(h[i]) is Some,
    ensures
        digits_value(h, 16) == Some(
            ((((hex_value(h[0]) * 16 + hex_value(h[1])) * 16 + hex_value(h[2])) * 16 + hex_value(h[3])) * 16
                + hex_value(h[4])) * 16 + hex_value(h[5]),
        ),
{
    lemma_prefix_digits(h, 6);
    assert(h.subrange(0, 6) =~= h);
    reveal_with_fuel(prefix_value, 7);
}

/// The first `k` digits of `h` write `prefix_value(h, k)`.
proof fn lemma_prefix_digits(h: Seq<char>, k: int)
    requires
        0 <= k <= h.len(),
        forall|i: int| 0 <= i < h.len() ==> #[trigger] hex_digit(h[i]) is Some,
    ensures
        digits_value(h.subrange(0, k), 16) == Some(prefix_value(h, k)),
    decreases k,
{
    if k > 0 {
        lemma_prefix_digits(h, k - 1);
        assert(h.subrange(0, k).drop_last() =~= h.subrange(0, k - 1));
        assert(h.subrange(0, k).last() == h[k - 1]);
        assert(hex_digit(h[k - 1]) is Some);
    } else {
        assert(h.subrange(0, 0).len() == 0);
    }
}

/// The number the first `k` hexadecimal digits of `h` write.
spec fn prefix_value(h: Seq<char>, k: int) -> nat
    decreases k,
{
    if k <= 0 {
        0
    } else {
        prefix_value(h, k - 1) * 16 + hex_value(h[k - 1])
    }
}

/// A `#` followed by six hexadecimal digits that write `v` reads as the
/// colour `v`.
proof fn lemma_hex_color_text(s: Seq<char>, v: u32)
    requires
        s.len() == 7,
        s[0] == '#',
        forall|i: int| 1 <= i < 7 ==> #[trigger] hex_digit(s[i]) is Some,
        v == ((((hex_value(s[1]) * 16 + hex_value(s[2])) * 16 + hex_value(s[3])) * 16 + hex_value(s[4])) * 16
            + hex_value(s[5])) * 16 + hex_value(s[6]),
    ensures
        css_color(s) == CssView::Solid(rgb(v)),
{
    assert(hex_digit(s[6]) is Some);
    lemma_hash_text_untrimmed(s);
    let h = s.drop_first();
    assert forall|i: int| 0 <= i < 6 implies #[trigger] hex_digit(h[i]) is Some by {
        assert(h[i] == s[i + 1]);
        assert(hex_digit(s[i + 1]) is Some);
    }
    lemma_six_hex_digits(h);
    assert(h[0] == s[1] && h[1] == s[2] && h[2] == s[3] && h[3] == s[4] && h[4] == s[5] && h[5] == s[6]);
    assert(hex_digit(h[0]) is Some);
}

/// The dark palette's `background` text reads back as the dark theme's colour.
proof fn lemma_dark_background()
    ensures
        css_color(taled_dark_palette().background) == CssView::Solid(taled_dark_colors().background),
{
    reveal_strlit("#121214");
    lemma_hex_color_text("#121214"@, 0x121214);
}

/// The dark palette's `background_elevated` text reads back as the dark theme's colour.
proof fn lemma_dark_background_elevated()
    ensures
        css_color(taled_dark_palette().background_elevated) == CssView::Solid(taled_dark_colors().background_elevated),
{
    reveal_strlit("#1f1f21");
    lemma_hex_color_text("#1f1f21"@, 0x1f1f21);
}

/// The dark palette's `surface` text reads back as the dark theme's colour.
proof fn lemma_dark_surface()
    ensures
        css_color(taled_dark_palette().surface) == CssView::Solid(taled_dark_colors().surface),
{
    reveal_strlit("#1c1c1e");
    lemma_hex_color_text("#1c1c1e"@, 0x1c1c1e);
}

/// The dark palette's `surface_elevated` text reads back as the dark theme's colour.
proof fn lemma_dark_surface_elevated()
    ensures
        css_color(taled_dark_palette().surface_elevated) == CssView::Solid(taled_dark_colors().surface_elevated),
{
    reveal_strlit("#242426");
    lemma_hex_color_text("#242426"@, 0x242426);
}

/// The dark palette's `border` text reads back as the dark theme's colour.
proof fn lemma_dark_border()
    ensures
        css_color(taled_dark_palette().border) == CssView::Solid(taled_dark_colors().border),
{
    reveal_strlit("#2c2c2e");
    lemma_hex_color_text("#2c2c2e"@, 0x2c2c2e);
}

/// The dark palette's `border_strong` text reads back as the dark theme's colour.
proof fn lemma_dark_border_strong()
    ensures
        css_color(taled_dark_palette().border_strong) == CssView::Solid(taled_dark_colors().border_strong),
{
    reveal_strlit("#3a3a3c");
    lemma_hex_color_text("#3a3a3c"@, 0x3a3a3c);
}

/// The dark palette's `text` text reads back as the dark theme's colour.
proof fn lemma_dark_text()
    ensures
        css_color(taled_dark_palette().text) == CssView::Solid(taled_dark_colors().text),
{
    reveal_strlit("#f2f2f7");
    lemma_hex_color_text("#f2f2f7"@, 0xf2f2f7);
}

/// The dark palette's `muted_text` text reads back as the dark theme's colour.
proof fn lemma_dark_muted_text()
    ensures
        css_color(taled_dark_palette().muted_text) == CssView::Solid(taled_dark_colors().muted_text),
{
    reveal_strlit("#8f8f95");
    lemma_hex_color_text("#8f8f95"@, 0x8f8f95);
}

/// The dark palette's `accent` text reads back as the dark theme's colour.
proof fn lemma_dark_accent()
    ensures
        css_color(taled_dark_palette().accent) == CssView::Solid(taled_dark_colors().accent),
{
    reveal_strlit("#0a84ff");
    lemma_hex_color_text("#0a84ff"@, 0x0a84ff);
}

/// The dark palette's `accent_text` text reads back as the dark theme's colour.
proof fn lemma_dark_accent_text()
    ensures
        css_color(taled_dark_palette().accent_text) == CssView::Solid(taled_dark_colors().accent_text),
{
    reveal_strlit("#ffffff");
    lemma_hex_color_text("#ffffff"@, 0xffffff);
}

/// The dark palette's `success` text reads back as the dark theme's colour.
proof fn lemma_dark_success()
    ensures
        css_color(taled_dark_palette().success) == CssView::Solid(taled_dark_colors().success),
{
    reveal_strlit("#30d158");
    lemma_hex_color_text("#30d158"@, 0x30d158);
}

/// The dark palette's `danger` text reads back as the dark theme's colour.
proof fn lemma_dark_danger()
    ensures
        css_color(taled_dark_palette().danger) == CssView::Solid(taled_dark_colors().danger),
{
    reveal_strlit("#ff453a");
    lemma_hex_color_text("#ff453a"@, 0xff453a);
}

/// The dark palette's `canvas_base` text reads back as the dark theme's colour.
proof fn lemma_dark_canvas_base()
    ensures
        css_color(taled_dark_palette().canvas_base) == CssView::Solid(taled_dark_colors().canvas_base),
{
    reveal_strlit("#2a2a2a");
    lemma_hex_color_text("#2a2a2a"@, 0x2a2a2a);
}

/// The dark palette's `empty_tile` text reads back as the dark theme's colour.
proof fn lemma_dark_empty_tile()
    ensures
        css_color(taled_dark_palette().empty_tile) == CssView::Solid(taled_dark_colors().empty_tile),
{
    reveal_strlit("#142131");
    lemma_hex_color_text("#142131"@, 0x142131);
}

/// The colour texts of the default dark palette read back as the colours
/// of the default dark theme (its opaque colours; the alpha of an `rgba`
/// text is read outside this library).
pub proof fn lemma_dark_palette_reads_back()
    ensures
        css_color(taled_dark_palette().background) == CssView::Solid(taled_dark_colors().background),
        css_color(taled_dark_palette().background_elevated) == CssView::Solid(taled_dark_colors().background_elevated),
        css_color(taled_dark_palette().surface) == CssView::Solid(taled_dark_colors().surface),
        css_color(taled_dark_palette().surface_elevated) == CssView::Solid(taled_dark_colors().surface_elevated),
        css_color(taled_dark_palette().border) == CssView::Solid(taled_dark_colors().border),
        css_color(taled_dark_palette().border_strong) == CssView::Solid(taled_dark_colors().border_strong),
        css_color(taled_dark_palette().text) == CssView::Solid(taled_dark_colors().text),
        css_color(taled_dark_palette().muted_text) == CssView::Solid(taled_dark_colors().muted_text),
        css_color(taled_dark_palette().accent) == CssView::Solid(taled_dark_colors().accent),
        css_color(taled_dark_palette().accent_text) == CssView::Solid(taled_dark_colors().accent_text),
        css_color(taled_dark_palette().success) == CssView::Solid(taled_dark_colors().success),
        css_color(taled_dark_palette().danger) == CssView::Solid(taled_dark_colors().danger),
        css_color(taled_dark_palette().canvas_base) == CssView::Solid(taled_dark_colors().canvas_base),
        css_color(taled_dark_palette().empty_tile) == CssView::Solid(taled_dark_colors().empty_tile),
{
    lemma_dark_background();
    lemma_dark_background_elevated();
    lemma_dark_surface();
    lemma_dark_surface_elevated();
    lemma_dark_border();
    lemma_dark_border_strong();
    lemma_dark_text();
    lemma_dark_muted_text();
    lemma_dark_accent();
    lemma_dark_accent_text();
    lemma_dark_success();
    lemma_dark_danger();
    lemma_dark_canvas_base();
    lemma_dark_empty_tile();
}

} // verus!
