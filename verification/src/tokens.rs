//! The resource algebra: per-currency token counts with checked arithmetic.
//!
//! Every game rule violation that involves tokens (overdrawing the bank,
//! exceeding the hand cap) is surfaced as a failed checked operation on
//! [`ColorCounts`], so the contracts here carry most of the rules.

use crate::rand::RandomStream;
use vstd::prelude::*;

verus! {

/// One of the six kinds of currency: five regular colors plus the wild
/// (joker) kind, `Yellow`. Ordinal identity only; no behavior.
#[derive(Clone, Copy, Debug, PartialEq, Eq, Structural)]
pub enum Color {
    Red,
    Green,
    Blue,
    White,
    Black,
    Yellow,
}

/// The number of currency kinds.
pub const NUM_COLORS: usize = 6;

/// The color with the given ordinal, `Red` through `Yellow` in order.
pub open spec fn color_of_index(i: int) -> Color {
    if i == 0 {
        Color::Red
    } else if i == 1 {
        Color::Green
    } else if i == 2 {
        Color::Blue
    } else if i == 3 {
        Color::White
    } else if i == 4 {
        Color::Black
    } else {
        Color::Yellow
    }
}

impl Color {
    /// The color with the given ordinal, `Red` through `Yellow` in order.
    pub fn from_index(n: usize) -> (c: Color)
        requires
            n < NUM_COLORS,
        ensures
            c == color_of_index(n as int),
    {
        if n == 0 {
            Color::Red
        } else if n == 1 {
            Color::Green
        } else if n == 2 {
            Color::Blue
        } else if n == 3 {
            Color::White
        } else if n == 4 {
            Color::Black
        } else {
            Color::Yellow
        }
    }
}

/// How an operation of this crate can fail. All variants are recoverable and
/// are reported to the caller of the failing action.
#[derive(Clone, Copy, Debug, PartialEq, Eq, Structural)]
pub enum Error {
    /// An addition of counts would exceed the representable range.
    Overflow,
    /// A subtraction would require a negative lane (insufficient supply).
    Underflow,
    /// An action violates a structural rule: a non-distinct take, the wild
    /// color taken directly, more than three tokens requested, or a discard
    /// that does not fit the tokens held.
    InvalidMoveShape,
    /// The resulting player token total would exceed ten.
    HandCapExceeded,
    /// No bank tokens, no visible cards, and no reserved cards remain.
    NoLegalMove,
}

/// A multiset of [`Color`]: how many tokens of each currency are held.
/// No lane can ever be negative; arithmetic is checked, never clamped,
/// except where [`ColorCounts::minus_saturating`] says so.
#[derive(Clone, Copy, Debug, PartialEq, Eq, Structural)]
pub struct ColorCounts {
    pub red: usize,
    pub green: usize,
    pub blue: usize,
    pub white: usize,
    pub black: usize,
    pub yellow: usize,
}

impl ColorCounts {
    /// The count held of the given color.
    pub open spec fn spec_get(self, color: Color) -> usize {
        match color {
            Color::Red => self.red,
            Color::Green => self.green,
            Color::Blue => self.blue,
            Color::White => self.white,
            Color::Black => self.black,
            Color::Yellow => self.yellow,
        }
    }

    /// The total number of tokens, over all lanes.
    pub open spec fn total(self) -> int {
        self.red + self.green + self.blue + self.white + self.black + self.yellow
    }

    /// Zero of every color.
    pub open spec fn spec_zero() -> ColorCounts {
        ColorCounts { red: 0, green: 0, blue: 0, white: 0, black: 0, yellow: 0 }
    }

    /// The bank's starting supply: seven of every regular token and five wild
    /// tokens.
    pub open spec fn spec_bank_start() -> ColorCounts {
        ColorCounts { red: 7, green: 7, blue: 7, white: 7, black: 7, yellow: 5 }
    }

    /// `base` with the lane of `color` replaced by `n`.
    pub open spec fn with_lane(base: ColorCounts, color: Color, n: usize) -> ColorCounts {
        match color {
            Color::Red => ColorCounts { red: n, ..base },
            Color::Green => ColorCounts { green: n, ..base },
            Color::Blue => ColorCounts { blue: n, ..base },
            Color::White => ColorCounts { white: n, ..base },
            Color::Black => ColorCounts { black: n, ..base },
            Color::Yellow => ColorCounts { yellow: n, ..base },
        }
    }

    /// Exactly one token of the given color.
    pub open spec fn one(color: Color) -> ColorCounts {
        Self::with_lane(Self::spec_zero(), color, 1)
    }

    /// Exactly two tokens of the given color.
    pub open spec fn two(color: Color) -> ColorCounts {
        Self::with_lane(Self::spec_zero(), color, 2)
    }

    /// Every lane of `a` is at most the corresponding lane of `b`; exactly
    /// when this holds does subtracting `a` from `b` succeed.
    pub open spec fn le(a: ColorCounts, b: ColorCounts) -> bool {
        &&& a.red <= b.red
        &&& a.green <= b.green
        &&& a.blue <= b.blue
        &&& a.white <= b.white
        &&& a.black <= b.black
        &&& a.yellow <= b.yellow
    }

    /// No lane of the elementwise sum of `a` and `b` overflows; exactly when
    /// this holds does adding them succeed.
    pub open spec fn sum_fits(a: ColorCounts, b: ColorCounts) -> bool {
        &&& a.red + b.red <= usize::MAX
        &&& a.green + b.green <= usize::MAX
        &&& a.blue + b.blue <= usize::MAX
        &&& a.white + b.white <= usize::MAX
        &&& a.black + b.black <= usize::MAX
        &&& a.yellow + b.yellow <= usize::MAX
    }

    /// The elementwise sum; meaningful when `sum_fits(a, b)` holds.
    pub open spec fn spec_plus(a: ColorCounts, b: ColorCounts) -> ColorCounts {
        ColorCounts {
            red: (a.red + b.red) as usize,
            green: (a.green + b.green) as usize,
            blue: (a.blue + b.blue) as usize,
            white: (a.white + b.white) as usize,
            black: (a.black + b.black) as usize,
            yellow: (a.yellow + b.yellow) as usize,
        }
    }

    /// The elementwise difference; meaningful when `le(b, a)` holds.
    pub open spec fn spec_minus(a: ColorCounts, b: ColorCounts) -> ColorCounts {
        ColorCounts {
            red: (a.red - b.red) as usize,
            green: (a.green - b.green) as usize,
            blue: (a.blue - b.blue) as usize,
            white: (a.white - b.white) as usize,
            black: (a.black - b.black) as usize,
            yellow: (a.yellow - b.yellow) as usize,
        }
    }

    /// The elementwise difference with negative lanes clamped to zero.
    pub open spec fn spec_minus_saturating(a: ColorCounts, b: ColorCounts) -> ColorCounts {
        ColorCounts {
            red: if a.red >= b.red { (a.red - b.red) as usize } else { 0 },
            green: if a.green >= b.green { (a.green - b.green) as usize } else { 0 },
            blue: if a.blue >= b.blue { (a.blue - b.blue) as usize } else { 0 },
            white: if a.white >= b.white { (a.white - b.white) as usize } else { 0 },
            black: if a.black >= b.black { (a.black - b.black) as usize } else { 0 },
            yellow: if a.yellow >= b.yellow { (a.yellow - b.yellow) as usize } else { 0 },
        }
    }

    /// Some lane holds more than one token.
    pub open spec fn has_repeat(a: ColorCounts) -> bool {
        ||| a.red > 1
        ||| a.green > 1
        ||| a.blue > 1
        ||| a.white > 1
        ||| a.black > 1
        ||| a.yellow > 1
    }

    /// Zero of every color.
    pub fn zero() -> (r: ColorCounts)
        ensures
            r == Self::spec_zero(),
    {
        ColorCounts { red: 0, green: 0, blue: 0, white: 0, black: 0, yellow: 0 }
    }

    /// The bank's starting supply: seven of every regular token and five wild
    /// tokens.
    pub fn bank_start() -> (r: ColorCounts)
        ensures
            r == Self::spec_bank_start(),
    {
        ColorCounts { red: 7, green: 7, blue: 7, white: 7, black: 7, yellow: 5 }
    }

    /// Exactly one token of the given color.
    pub fn from_color(color: Color) -> (r: ColorCounts)
        ensures
            r == Self::one(color),
    {
        let mut out = Self::zero();
        match color {
            Color::Red => out.red = 1,
            Color::Green => out.green = 1,
            Color::Blue => out.blue = 1,
            Color::White => out.white = 1,
            Color::Black => out.black = 1,
            Color::Yellow => out.yellow = 1,
        }
        out
    }

    /// Return the quantity of the given color.
    pub fn get(&self, color: Color) -> (r: usize)
        ensures
            r == self.spec_get(color),
    {
        match color {
            Color::Red => self.red,
            Color::Green => self.green,
            Color::Blue => self.blue,
            Color::White => self.white,
            Color::Black => self.black,
            Color::Yellow => self.yellow,
        }
    }

    /// Add another [`ColorCounts`] to this one. Returns the sum exactly when
    /// no lane overflows, and the overflow error otherwise.
    pub fn plus(&self, other: &ColorCounts) -> (r: Result<ColorCounts, Error>)
        ensures
            Self::sum_fits(*self, *other) ==> r == Ok::<ColorCounts, Error>(
                Self::spec_plus(*self, *other),
            ),
            !Self::sum_fits(*self, *other) ==> r == Err::<ColorCounts, Error>(Error::Overflow),
    {
        let red = match self.red.checked_add(other.red) {
            Some(v) => v,
            None => return Err(Error::Overflow),
        };
        let green = match self.green.checked_add(other.green) {
            Some(v) => v,
            None => return Err(Error::Overflow),
        };
        let blue = match self.blue.checked_add(other.blue) {
            Some(v) => v,
            None => return Err(Error::Overflow),
        };
        let white = match self.white.checked_add(other.white) {
            Some(v) => v,
            None => return Err(Error::Overflow),
        };
        let black = match self.black.checked_add(other.black) {
            Some(v) => v,
            None => return Err(Error::Overflow),
        };
        let yellow = match self.yellow.checked_add(other.yellow) {
            Some(v) => v,
            None => return Err(Error::Overflow),
        };
        Ok(ColorCounts { red, green, blue, white, black, yellow })
    }

    /// Subtract another [`ColorCounts`] from this one. Returns the difference
    /// exactly when no lane would go negative, and the underflow error
    /// otherwise; it never clamps.
    pub fn minus(&self, other: &ColorCounts) -> (r: Result<ColorCounts, Error>)
        ensures
            Self::le(*other, *self) ==> r == Ok::<ColorCounts, Error>(
                Self::spec_minus(*self, *other),
            ),
            !Self::le(*other, *self) ==> r == Err::<ColorCounts, Error>(Error::Underflow),
    {
        let red = match self.red.checked_sub(other.red) {
            Some(v) => v,
            None => return Err(Error::Underflow),
        };
        let green = match self.green.checked_sub(other.green) {
            Some(v) => v,
            None => return Err(Error::Underflow),
        };
        let blue = match self.blue.checked_sub(other.blue) {
            Some(v) => v,
            None => return Err(Error::Underflow),
        };
        let white = match self.white.checked_sub(other.white) {
            Some(v) => v,
            None => return Err(Error::Underflow),
        };
        let black = match self.black.checked_sub(other.black) {
            Some(v) => v,
            None => return Err(Error::Underflow),
        };
        let yellow = match self.yellow.checked_sub(other.yellow) {
            Some(v) => v,
            None => return Err(Error::Underflow),
        };
        Ok(ColorCounts { red, green, blue, white, black, yellow })
    }

    /// Subtract another [`ColorCounts`] from this one, clamping each lane
    /// that would go negative to zero. Never fails. For summaries only,
    /// never for authoritative balance changes.
    pub fn minus_saturating(&self, other: &ColorCounts) -> (r: ColorCounts)
        ensures
            r == Self::spec_minus_saturating(*self, *other),
    {
        ColorCounts {
            red: self.red.saturating_sub(other.red),
            green: self.green.saturating_sub(other.green),
            blue: self.blue.saturating_sub(other.blue),
            white: self.white.saturating_sub(other.white),
            black: self.black.saturating_sub(other.black),
            yellow: self.yellow.saturating_sub(other.yellow),
        }
    }

    /// A copy of this [`ColorCounts`] that contains zero of `color`.
    pub fn minus_all(&self, color: Color) -> (r: ColorCounts)
        ensures
            r == Self::with_lane(*self, color, 0),
    {
        let mut out = *self;
        match color {
            Color::Red => out.red = 0,
            Color::Green => out.green = 0,
            Color::Blue => out.blue = 0,
            Color::White => out.white = 0,
            Color::Black => out.black = 0,
            Color::Yellow => out.yellow = 0,
        }
        out
    }

    /// The total number of tokens.
    pub fn len(&self) -> (r: usize)
        requires
            self.total() <= usize::MAX,
        ensures
            r == self.total(),
    {
        self.red + self.green + self.blue + self.white + self.black + self.yellow
    }

    /// An iterator over color-count pairs, ordered by color ordinal,
    /// including zero-count lanes.
    pub fn iter(&self) -> (r: ColorCountsIter)
        ensures
            r.i == 0,
            r.counts == *self,
    {
        ColorCountsIter { i: 0, counts: *self }
    }

    /// Remove one token, chosen among all held tokens according to the random
    /// stream (weighted by count). Returns the remaining counts and the color
    /// removed, or this value unchanged and no color when it is empty.
    pub fn random_choice<R: RandomStream>(&self, rand: &mut R) -> (r: (ColorCounts, Option<
        Color,
    >))
        requires
            self.total() <= usize::MAX,
        ensures
            Self::le(r.0, *self),
            self.total() == 0 ==> r == (*self, None::<Color>) && *final(rand) == *old(rand),
            self.total() > 0 ==> (r.1 matches Some(c) && self.spec_get(c) > 0 && r.0
                == Self::spec_minus(*self, Self::one(c)) && r.0.total() == self.total() - 1),
    {
        let total = self.len();
        if total == 0 {
            return (*self, None);
        }
        let idx = rand.read_usize() % total;
        let p1 = self.red;
        let p2 = p1 + self.green;
        let p3 = p2 + self.blue;
        let p4 = p3 + self.white;
        let p5 = p4 + self.black;
        let color = if idx < p1 {
            Color::Red
        } else if idx < p2 {
            Color::Green
        } else if idx < p3 {
            Color::Blue
        } else if idx < p4 {
            Color::White
        } else if idx < p5 {
            Color::Black
        } else {
            Color::Yellow
        };
        let remaining = match self.minus(&Self::from_color(color)) {
            Ok(v) => v,
            Err(_) => vstd::pervasive::unreached(),
        };
        (remaining, Some(color))
    }
}

/// How many times `color` occurs in the sequence.
pub open spec fn count_color(s: Seq<Color>, color: Color) -> int
    decreases s.len(),
{
    if s.len() == 0 {
        0
    } else {
        count_color(s.drop_last(), color) + if s.last() == color {
            1int
        } else {
            0int
        }
    }
}

/// A color occurs at most as often as the sequence is long.
proof fn lemma_count_color_le_len(s: Seq<Color>, color: Color)
    ensures
        0 <= count_color(s, color) <= s.len(),
    decreases s.len(),
{
    if s.len() > 0 {
        lemma_count_color_le_len(s.drop_last(), color);
    }
}

/// Extending a prefix by one element extends its color counts by that
/// element.
proof fn lemma_count_color_take_succ(s: Seq<Color>, i: int, color: Color)
    requires
        0 <= i < s.len(),
    ensures
        count_color(s.take(i + 1), color) == count_color(s.take(i), color) + if s[i] == color {
            1int
        } else {
            0int
        },
{
    assert(s.take(i + 1).drop_last() =~= s.take(i));
    assert(s.take(i + 1).last() == s[i]);
}

/// The elementwise sum of a sequence of counts; meaningful when
/// `sum_fits_all` holds of the sequence.
pub open spec fn spec_sum(s: Seq<ColorCounts>) -> ColorCounts
    decreases s.len(),
{
    if s.len() == 0 {
        ColorCounts::spec_zero()
    } else {
        ColorCounts::spec_plus(spec_sum(s.drop_last()), s.last())
    }
}

/// No partial sum of the sequence overflows any lane.
pub open spec fn sum_fits_all(s: Seq<ColorCounts>) -> bool
    decreases s.len(),
{
    if s.len() == 0 {
        true
    } else {
        sum_fits_all(s.drop_last()) && ColorCounts::sum_fits(spec_sum(s.drop_last()), s.last())
    }
}

/// When no partial sum of `s` overflows, neither does one of a prefix.
proof fn lemma_sum_fits_all_take(s: Seq<ColorCounts>, i: int)
    requires
        sum_fits_all(s),
        0 <= i <= s.len(),
    ensures
        sum_fits_all(s.take(i)),
    decreases s.len() - i,
{
    if i == s.len() {
        assert(s.take(i) =~= s);
    } else {
        lemma_sum_fits_all_take(s, i + 1);
        assert(s.take(i + 1).drop_last() =~= s.take(i));
    }
}

/// Extending a prefix by one element adds that element to its sum.
proof fn lemma_spec_sum_take_succ(s: Seq<ColorCounts>, i: int)
    requires
        0 <= i < s.len(),
    ensures
        spec_sum(s.take(i + 1)) == ColorCounts::spec_plus(spec_sum(s.take(i)), s[i]),
{
    assert(s.take(i + 1).drop_last() =~= s.take(i));
    assert(s.take(i + 1).last() == s[i]);
}

impl ColorCounts {
    /// The counts with one token for each occurrence of a color in the list.
    pub fn from_colors(colors: &Vec<Color>) -> (r: ColorCounts)
        ensures
            forall|c: Color| r.spec_get(c) == count_color(colors@, c),
    {
        let mut out = Self::zero();
        let mut i: usize = 0;
        while i < colors.len()
            invariant
                i <= colors@.len(),
                forall|c: Color| out.spec_get(c) == count_color(colors@.take(i as int), c),
            decreases colors@.len() - i,
        {
            let color = colors[i];
            let ghost prev = out;
            proof {
                lemma_count_color_le_len(colors@.take(i as int), color);
                assert(out.spec_get(color) == count_color(colors@.take(i as int), color));
                assert(out.spec_get(color) < colors@.len());
            }
            match color {
                Color::Red => out.red = out.red + 1,
                Color::Green => out.green = out.green + 1,
                Color::Blue => out.blue = out.blue + 1,
                Color::White => out.white = out.white + 1,
                Color::Black => out.black = out.black + 1,
                Color::Yellow => out.yellow = out.yellow + 1,
            }
            proof {
                assert forall|c: Color| out.spec_get(c) == count_color(
                    colors@.take(i + 1int),
                    c,
                ) by {
                    lemma_count_color_take_succ(colors@, i as int, c);
                    assert(prev.spec_get(c) == count_color(colors@.take(i as int), c));
                }
            }
            i = i + 1;
        }
        proof {
            assert(colors@.take(i as int) =~= colors@);
        }
        out
    }

    /// Add up a list of counts. The caller must know that no partial sum
    /// overflows; the game only ever sums small token bundles.
    pub fn sum(items: &Vec<ColorCounts>) -> (r: ColorCounts)
        requires
            sum_fits_all(items@),
        ensures
            r == spec_sum(items@),
    {
        let mut acc = Self::zero();
        let mut i: usize = 0;
        while i < items.len()
            invariant
                i <= items@.len(),
                sum_fits_all(items@),
                acc == spec_sum(items@.take(i as int)),
            decreases items@.len() - i,
        {
            proof {
                lemma_sum_fits_all_take(items@, i + 1int);
                lemma_spec_sum_take_succ(items@, i as int);
                assert(items@.take(i + 1int).drop_last() =~= items@.take(i as int));
            }
            acc = match acc.plus(&items[i]) {
                Ok(v) => v,
                Err(_) => vstd::pervasive::unreached(),
            };
            i = i + 1;
        }
        proof {
            assert(items@.take(i as int) =~= items@);
        }
        acc
    }
}

/// Adding counts and then subtracting the same counts returns the original
/// value: whenever the addition fits, the subtraction succeeds and round
/// trips.
pub proof fn lemma_plus_minus_round_trip(a: ColorCounts, b: ColorCounts)
    requires
        ColorCounts::sum_fits(a, b),
    ensures
        ColorCounts::le(b, ColorCounts::spec_plus(a, b)),
        ColorCounts::spec_minus(ColorCounts::spec_plus(a, b), b) == a,
{
}

/// Subtracting a value from itself always succeeds and yields zero of every
/// color.
pub proof fn lemma_minus_self(a: ColorCounts)
    ensures
        ColorCounts::le(a, a),
        ColorCounts::spec_minus(a, a) == ColorCounts::spec_zero(),
{
}

/// Adding any counts with a nonzero lane to counts already holding the
/// maximum representable value in that lane fails.
pub proof fn lemma_plus_overflow(a: ColorCounts, b: ColorCounts, color: Color)
    requires
        a.spec_get(color) == usize::MAX,
        b.spec_get(color) > 0,
    ensures
        !ColorCounts::sum_fits(a, b),
{
}

/// Subtracting anything nonzero from zero of every color fails.
pub proof fn lemma_minus_underflow(b: ColorCounts, color: Color)
    requires
        b.spec_get(color) > 0,
    ensures
        !ColorCounts::le(b, ColorCounts::spec_zero()),
{
}

/// The saturating difference never leaves a lane below zero, and it agrees
/// with the checked difference exactly where that difference succeeds.
pub proof fn lemma_minus_saturating_agrees(a: ColorCounts, b: ColorCounts)
    ensures
        ColorCounts::le(ColorCounts::spec_minus_saturating(a, b), a),
        ColorCounts::le(b, a) ==> ColorCounts::spec_minus_saturating(a, b)
            == ColorCounts::spec_minus(a, b),
{
}

/// Yields the color-count pairs of one [`ColorCounts`] value in color-ordinal
/// order, including zero-count lanes.
pub struct ColorCountsIter {
    pub i: usize,
    pub counts: ColorCounts,
}

impl ColorCountsIter {
    /// Produce the next color-count pair. This does not skip colors that have
    /// counts of zero.
    pub fn next(&mut self) -> (r: Option<(Color, usize)>)
        ensures
            old(self).i < NUM_COLORS ==> (r == Some(
                (
                    color_of_index(old(self).i as int),
                    old(self).counts.spec_get(color_of_index(old(self).i as int)),
                ),
            ) && final(self).i == old(self).i + 1 && final(self).counts == old(self).counts),
            old(self).i >= NUM_COLORS ==> (r == None::<(Color, usize)> && *final(self) == *old(
                self,
            )),
    {
        if self.i < NUM_COLORS {
            let color = Color::from_index(self.i);
            let count = self.counts.get(color);
            self.i = self.i + 1;
            Some((color, count))
        } else {
            None
        }
    }
}

} // verus!
