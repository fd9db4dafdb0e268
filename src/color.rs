use vstd::prelude::*;
use vstd::string::StringExecFns;

verus! {

/// A straight-alpha RGBA colour packed into one 32-bit word: red in the most significant
/// byte, then green, blue, and alpha in the least significant byte.
#[derive(Clone, Copy, Debug, Default, PartialEq, Eq, Structural)]
pub struct Color(pub u32);

/// The packed word that holds the four channels in the order red, green, blue, alpha.
pub open spec fn pack(r: u8, g: u8, b: u8, a: u8) -> u32 {
    (r as u32) << 24u32 | (g as u32) << 16u32 | (b as u32) << 8u32 | (a as u32)
}

/// Total coverage of a source-over composite, scaled by 255 * 255.
pub open spec fn coverage(fa: int, ba: int) -> int {
    fa * 255 + ba * (255 - fa)
}

/// Weighted sum of one channel of a source-over composite, scaled by 255 * 255 * 255.
pub open spec fn channel_weight(fc: int, bc: int, fa: int, ba: int) -> int {
    fc * fa * 255 + bc * ba * (255 - fa)
}

/// `n / d` rounded to the nearest integer, halves away from zero (for `n >= 0`, `d > 0`).
pub open spec fn round_div(n: int, d: int) -> int {
    (2 * n + d) / (2 * d)
}

/// One composited channel: `round((fc*fa + bc*ba*(1-fa)) / out_alpha)` with every alpha
/// normalised to [0, 1], computed exactly.
pub open spec fn mix_channel(fc: u8, bc: u8, fa: u8, ba: u8) -> int {
    round_div(channel_weight(fc as int, bc as int, fa as int, ba as int), coverage(fa as int, ba as int))
}

/// Alpha of a composite: `out_alpha * 255` rounded to the nearest integer.
pub open spec fn mix_alpha(fa: u8, ba: u8) -> int {
    round_div(coverage(fa as int, ba as int), 255)
}

/// Lower-case hexadecimal digit of a value below 16.
pub open spec fn hex_char(n: int) -> char {
    if n < 10 {
        (('0' as int) + n) as char
    } else {
        (('a' as int) + n - 10) as char
    }
}

/// The eight lower-case hexadecimal digits of a word, most significant first.
pub open spec fn hex_digits(v: u32) -> Seq<char> {
    Seq::new(8, |i: int| hex_char(((v >> ((28 - 4 * i) as u32)) & 0xF) as int))
}

impl Color {
    pub open spec fn red(self) -> u8 {
        (self.0 >> 24u32) as u8
    }

    pub open spec fn green(self) -> u8 {
        ((self.0 >> 16u32) & 0xFF) as u8
    }

    pub open spec fn blue(self) -> u8 {
        ((self.0 >> 8u32) & 0xFF) as u8
    }

    pub open spec fn alpha(self) -> u8 {
        (self.0 & 0xFF) as u8
    }

    /// The colour with the given channels.
    pub open spec fn rgba(r: u8, g: u8, b: u8, a: u8) -> Color {
        Color(pack(r, g, b, a))
    }

    /// Source-over composite of `fg` onto `bg`.
    pub open spec fn blended(bg: Color, fg: Color) -> Color {
        if fg.alpha() == 0 {
            bg
        } else if fg.alpha() == 255 {
            fg
        } else if bg.alpha() == 0 {
            fg
        } else {
            Color::rgba(
                mix_channel(fg.red(), bg.red(), fg.alpha(), bg.alpha()) as u8,
                mix_channel(fg.green(), bg.green(), fg.alpha(), bg.alpha()) as u8,
                mix_channel(fg.blue(), bg.blue(), fg.alpha(), bg.alpha()) as u8,
                mix_alpha(fg.alpha(), bg.alpha()) as u8,
            )
        }
    }

    /// The colour whose packed word is `hex` (0xRRGGBBAA).
    pub fn from_hex(hex: u32) -> (c: Color)
        ensures
            c.0 == hex,
    {
        Color(hex)
    }

    pub fn from_rgba(r: u8, g: u8, b: u8, a: u8) -> (c: Color)
        ensures
            c == Color::rgba(r, g, b, a),
            c.red() == r,
            c.green() == g,
            c.blue() == b,
            c.alpha() == a,
    {
        proof {
            lemma_pack_channels(r, g, b, a);
        }
        Color((r as u32) << 24u32 | (g as u32) << 16u32 | (b as u32) << 8u32 | (a as u32))
    }

    /// Reads the bytes in the order red, green, blue, alpha.
    pub fn from_be_bytes(bytes: &[u8; 4]) -> (c: Color)
        ensures
            c == Color::rgba(bytes@[0], bytes@[1], bytes@[2], bytes@[3]),
    {
        Color::from_rgba(bytes[0], bytes[1], bytes[2], bytes[3])
    }

    /// Reads the bytes in the order alpha, blue, green, red.
    pub fn from_le_bytes(bytes: &[u8; 4]) -> (c: Color)
        ensures
            c == Color::rgba(bytes@[3], bytes@[2], bytes@[1], bytes@[0]),
    {
        Color::from_rgba(bytes[3], bytes[2], bytes[1], bytes[0])
    }

    /// The channels in the order red, green, blue, alpha.
    pub fn to_be_bytes(self) -> (bytes: [u8; 4])
        ensures
            bytes@ == seq![self.red(), self.green(), self.blue(), self.alpha()],
    {
        let bytes = [self.r(), self.g(), self.b(), self.a()];
        assert(bytes@ =~= seq![self.red(), self.green(), self.blue(), self.alpha()]);
        bytes
    }

    /// The channels in the order alpha, blue, green, red.
    pub fn to_le_bytes(self) -> (bytes: [u8; 4])
        ensures
            bytes@ == seq![self.alpha(), self.blue(), self.green(), self.red()],
    {
        let bytes = [self.a(), self.b(), self.g(), self.r()];
        assert(bytes@ =~= seq![self.alpha(), self.blue(), self.green(), self.red()]);
        bytes
    }

    pub fn r(&self) -> (r: u8)
        ensures
            r == self.red(),
    {
        (self.0 >> 24u32) as u8
    }

    pub fn g(&self) -> (g: u8)
        ensures
            g == self.green(),
    {
        ((self.0 >> 16u32) & 0xFF) as u8
    }

    pub fn b(&self) -> (b: u8)
        ensures
            b == self.blue(),
    {
        ((self.0 >> 8u32) & 0xFF) as u8
    }

    pub fn a(&self) -> (a: u8)
        ensures
            a == self.alpha(),
    {
        (self.0 & 0xFF) as u8
    }

    pub fn set_r(&mut self, v: u8)
        ensures
            *final(self) == Color::rgba(v, old(self).green(), old(self).blue(), old(self).alpha()),
    {
        *self = Color::from_rgba(v, self.g(), self.b(), self.a());
    }

    pub fn set_g(&mut self, v: u8)
        ensures
            *final(self) == Color::rgba(old(self).red(), v, old(self).blue(), old(self).alpha()),
    {
        *self = Color::from_rgba(self.r(), v, self.b(), self.a());
    }

    pub fn set_b(&mut self, v: u8)
        ensures
            *final(self) == Color::rgba(old(self).red(), old(self).green(), v, old(self).alpha()),
    {
        *self = Color::from_rgba(self.r(), self.g(), v, self.a());
    }

    pub fn set_a(&mut self, v: u8)
        ensures
            *final(self) == Color::rgba(old(self).red(), old(self).green(), old(self).blue(), v),
    {
        *self = Color::from_rgba(self.r(), self.g(), self.b(), v);
    }

    /// Composites `foreground` over `background` ("source-over", straight alpha).
    pub fn blend_colors(background: &Color, foreground: &Color) -> (c: Color)
        ensures
            c == Color::blended(*background, *foreground),
    {
        let fa = foreground.a();
        let ba = background.a();
        if fa == 0 {
            return *background;
        }
        if fa == 255 {
            return *foreground;
        }
        if ba == 0 {
            return *foreground;
        }
        let fa64 = fa as u64;
        let ba64 = ba as u64;
        proof {
            lemma_coverage_bounds(fa as int, ba as int);
        }
        let cov: u64 = fa64 * 255 + ba64 * (255 - fa64);
        let r = mix(foreground.r(), background.r(), fa64, ba64, cov);
        let g = mix(foreground.g(), background.g(), fa64, ba64, cov);
        let b = mix(foreground.b(), background.b(), fa64, ba64, cov);
        let a = ((2 * cov + 255) / 510) as u8;
        Color::from_rgba(r, g, b, a)
    }

    /// The word as `0x` followed by eight lower-case hexadecimal digits.
    pub fn to_string(&self) -> (s: String)
        ensures
            s@ == seq!['0', 'x'] + hex_digits(self.0),
    {
        let mut s = String::from_str("0x");
        proof {
            reveal_strlit("0x");
        }
        let mut i: u32 = 0;
        while i < 8
            invariant
                i <= 8,
                s@ == seq!['0', 'x'] + hex_digits(self.0).subrange(0, i as int),
            decreases 8 - i,
        {
            let digit = ((self.0 >> (28 - 4 * i)) & 0xF) as u8;
            proof {
                lemma_nibble_bound(self.0 >> (28 - 4 * i));
            }
            s.append(hex_digit(digit));
            assert(hex_digits(self.0).subrange(0, i + 1) =~= hex_digits(self.0).subrange(0, i as int).push(
                hex_char(digit as int),
            ));
            i = i + 1;
        }
        assert(hex_digits(self.0).subrange(0, 8) =~= hex_digits(self.0));
        s
    }
}

proof fn lemma_nibble_bound(x: u32)
    ensures
        x & 0xF < 16,
{
    assert(x & 0xF < 16) by (bit_vector);
}

/// One hexadecimal digit as a one-character string.
pub(crate) fn hex_digit(n: u8) -> (s: &'static str)
    requires
        n < 16,
    ensures
        s@ == seq![hex_char(n as int)],
{
    let s = match n {
        0 => "0",
        1 => "1",
        2 => "2",
        3 => "3",
        4 => "4",
        5 => "5",
        6 => "6",
        7 => "7",
        8 => "8",
        9 => "9",
        10 => "a",
        11 => "b",
        12 => "c",
        13 => "d",
        14 => "e",
        _ => "f",
    };
    proof {
        reveal_strlit("0");
        reveal_strlit("1");
        reveal_strlit("2");
        reveal_strlit("3");
        reveal_strlit("4");
        reveal_strlit("5");
        reveal_strlit("6");
        reveal_strlit("7");
        reveal_strlit("8");
        reveal_strlit("9");
        reveal_strlit("a");
        reveal_strlit("b");
        reveal_strlit("c");
        reveal_strlit("d");
        reveal_strlit("e");
        reveal_strlit("f");
    }
    assert(s@ =~= seq![hex_char(n as int)]);
    s
}

/// One channel of a partially transparent composite.
fn mix(fc: u8, bc: u8, fa: u64, ba: u64, cov: u64) -> (c: u8)
    requires
        0 < fa < 255,
        0 < ba <= 255,
        cov == coverage(fa as int, ba as int),
    ensures
        c == mix_channel(fc, bc, fa as u8, ba as u8),
{
    proof {
        lemma_coverage_bounds(fa as int, ba as int);
        lemma_channel_bounds(fc as int, bc as int, fa as int, ba as int);
    }
    let w: u64 = (fc as u64) * fa * 255 + (bc as u64) * ba * (255 - fa);
    ((2 * w + cov) / (2 * cov)) as u8
}

proof fn lemma_coverage_bounds(fa: int, ba: int)
    requires
        0 < fa < 255,
        0 <= ba <= 255,
    ensures
        0 < coverage(fa, ba) <= 255 * 255,
        0 <= ba * (255 - fa) <= 255 * 255,
{
    assert(0 <= ba * (255 - fa) <= 255 * (255 - fa)) by (nonlinear_arith)
        requires
            0 < fa < 255,
            0 <= ba <= 255,
    ;
}

proof fn lemma_channel_bounds(fc: int, bc: int, fa: int, ba: int)
    requires
        0 <= fc <= 255,
        0 <= bc <= 255,
        0 < fa < 255,
        0 < ba <= 255,
    ensures
        0 <= fc * fa * 255 <= 255 * 255 * 255,
        0 <= bc * ba <= 255 * 255,
        0 <= bc * ba * (255 - fa) <= 255 * 255 * 255,
        0 <= channel_weight(fc, bc, fa, ba) <= 255 * coverage(fa, ba),
        0 <= mix_channel(fc as u8, bc as u8, fa as u8, ba as u8) <= 255,
{
    let cov = coverage(fa, ba);
    let w = channel_weight(fc, bc, fa, ba);
    assert(0 <= fc * fa * 255 <= 255 * fa * 255) by (nonlinear_arith)
        requires
            0 <= fc <= 255,
            0 < fa < 255,
    ;
    assert(0 <= fc * fa <= 255 * 255) by (nonlinear_arith)
        requires
            0 <= fc <= 255,
            0 < fa < 255,
    ;
    assert(0 <= bc * (ba * (255 - fa)) <= 255 * (ba * (255 - fa))) by (nonlinear_arith)
        requires
            0 <= bc <= 255,
            0 <= ba * (255 - fa),
    ;
    assert(bc * ba * (255 - fa) == bc * (ba * (255 - fa))) by (nonlinear_arith);
    assert(0 <= bc * ba <= 255 * 255) by (nonlinear_arith)
        requires
            0 <= bc <= 255,
            0 < ba <= 255,
    ;
    lemma_coverage_bounds(fa, ba);
    assert(0 <= ba * (255 - fa) <= 255 * 255);
    assert(w <= 255 * cov);
    assert(cov > 0);
    assert((2 * w + cov) / (2 * cov) <= 255) by (nonlinear_arith)
        requires
            0 <= w <= 255 * cov,
            cov > 0,
    ;
    assert((2 * w + cov) / (2 * cov) >= 0) by (nonlinear_arith)
        requires
            0 <= w,
            cov > 0,
    ;
}

proof fn lemma_pack_channels(r: u8, g: u8, b: u8, a: u8)
    ensures
        Color::rgba(r, g, b, a).red() == r,
        Color::rgba(r, g, b, a).green() == g,
        Color::rgba(r, g, b, a).blue() == b,
        Color::rgba(r, g, b, a).alpha() == a,
{
    let v = (r as u32) << 24u32 | (g as u32) << 16u32 | (b as u32) << 8u32 | (a as u32);
    assert(((v >> 24u32) as u8) == r && (((v >> 16u32) & 0xFF) as u8) == g && (((v >> 8u32)
        & 0xFF) as u8) == b && ((v & 0xFF) as u8) == a) by (bit_vector)
        requires
            v == (r as u32) << 24u32 | (g as u32) << 16u32 | (b as u32) << 8u32 | (a as u32),
    ;
}

proof fn lemma_unpack(c: Color)
    ensures
        Color::rgba(c.red(), c.green(), c.blue(), c.alpha()) == c,
{
    let v = c.0;
    assert(((((v >> 24u32) as u8) as u32) << 24u32 | ((((v >> 16u32) & 0xFF) as u8) as u32)
        << 16u32 | ((((v >> 8u32) & 0xFF) as u8) as u32) << 8u32 | (((v & 0xFF) as u8) as u32))
        == v) by (bit_vector);
}

/// Packing four channels and reading them back gives the same four channels, and a colour
/// is the packing of its own channels.
pub proof fn lemma_channels_round_trip(r: u8, g: u8, b: u8, a: u8, c: Color)
    ensures
        Color::rgba(r, g, b, a).red() == r,
        Color::rgba(r, g, b, a).green() == g,
        Color::rgba(r, g, b, a).blue() == b,
        Color::rgba(r, g, b, a).alpha() == a,
        Color::rgba(c.red(), c.green(), c.blue(), c.alpha()) == c,
{
    lemma_pack_channels(r, g, b, a);
    lemma_unpack(c);
}

/// Big-endian and little-endian byte conversions are inverse to each other: writing a
/// colour's bytes and reading them back in the same order gives the same colour, and the
/// other way round.
pub proof fn lemma_bytes_round_trip(c: Color, bytes: [u8; 4])
    ensures
        Color::rgba(c.red(), c.green(), c.blue(), c.alpha()) == c,
        ({
            let d = Color::rgba(bytes@[0], bytes@[1], bytes@[2], bytes@[3]);
            seq![d.red(), d.green(), d.blue(), d.alpha()] == bytes@
        }),
        ({
            let d = Color::rgba(bytes@[3], bytes@[2], bytes@[1], bytes@[0]);
            seq![d.alpha(), d.blue(), d.green(), d.red()] == bytes@
        }),
{
    lemma_unpack(c);
    lemma_pack_channels(bytes@[0], bytes@[1], bytes@[2], bytes@[3]);
    lemma_pack_channels(bytes@[3], bytes@[2], bytes@[1], bytes@[0]);
    assert(bytes@.len() == 4);
    let d = Color::rgba(bytes@[0], bytes@[1], bytes@[2], bytes@[3]);
    assert(seq![d.red(), d.green(), d.blue(), d.alpha()] =~= bytes@);
    let e = Color::rgba(bytes@[3], bytes@[2], bytes@[1], bytes@[0]);
    assert(seq![e.alpha(), e.blue(), e.green(), e.red()] =~= bytes@);
}

/// Blending leaves the background unchanged under a fully transparent foreground, and
/// yields the foreground when it is opaque or when the background is fully transparent.
pub proof fn lemma_blend_identities(bg: Color, fg: Color)
    ensures
        fg.alpha() == 0 ==> Color::blended(bg, fg) == bg,
        fg.alpha() == 255 ==> Color::blended(bg, fg) == fg,
        bg.alpha() == 0 ==> Color::blended(bg, fg) == fg || fg.alpha() == 0,
{
}

} // verus!
