//! Arithmetic, conversions and text for cells.

use std::ops::Add;
use vstd::prelude::*;
use vstd::std_specs::ops::AddSpec;

use crate::cell::Cell;

verus! {

impl Add<Cell> for Cell {
    type Output = Cell;

    /// Adds coordinate by coordinate. Neither sum may leave the range of `i32`.
    fn add(self, rhs: Cell) -> (sum: Cell)
        ensures
            sum.x == self.x + rhs.x,
            sum.y == self.y + rhs.y,
    {
        Cell::new(self.x + rhs.x, self.y + rhs.y)
    }
}

impl vstd::std_specs::ops::AddSpecImpl<Cell> for Cell {
    open spec fn obeys_add_spec() -> bool {
        true
    }

    open spec fn add_req(self, rhs: Cell) -> bool {
        &&& i32::MIN <= self.x + rhs.x <= i32::MAX
        &&& i32::MIN <= self.y + rhs.y <= i32::MAX
    }

    open spec fn add_spec(self, rhs: Cell) -> Cell {
        Cell::of(self.x + rhs.x, self.y + rhs.y)
    }
}

/// Adding (0, 0) changes nothing and is always allowed.
pub proof fn lemma_add_zero(a: Cell)
    ensures
        a.add_req(Cell::of(0, 0)),
        a.add_spec(Cell::of(0, 0)) == a,
        Cell::of(0, 0).add_spec(a) == a,
{
}

/// The order of the two cells of a sum makes no difference.
pub proof fn lemma_add_commutative(a: Cell, b: Cell)
    ensures
        a.add_req(b) == b.add_req(a),
        a.add_spec(b) == b.add_spec(a),
{
}

/// Where a sum is allowed it is the sum of the coordinates as integers.
pub proof fn lemma_add_componentwise(a: Cell, b: Cell)
    requires
        a.add_req(b),
    ensures
        a.add_spec(b).x == a.x + b.x,
        a.add_spec(b).y == a.y + b.y,
{
}

/// Three cells add up to the same cell however they are grouped, and where
/// one grouping is allowed at each step and the inner sum of the other is
/// allowed, so is its outer sum.
pub proof fn lemma_add_associative(a: Cell, b: Cell, c: Cell)
    ensures
        a.add_spec(b).add_spec(c) == a.add_spec(b.add_spec(c)),
        a.add_req(b) && a.add_spec(b).add_req(c) && b.add_req(c) ==> a.add_req(b.add_spec(c)),
{
    lemma_wrapping_sum_associative(a.x, b.x, c.x);
    lemma_wrapping_sum_associative(a.y, b.y, c.y);
}

/// Sums reduced to 32 bits can be grouped either way.
proof fn lemma_wrapping_sum_associative(a: i32, b: i32, c: i32)
    ensures
        (((a + b) as i32) + c) as i32 == (a + ((b + c) as i32)) as i32,
{
    assert((((a + b) as i32) + c) as i32 == (a + ((b + c) as i32)) as i32) by (bit_vector);
}

impl From<Cell> for (usize, usize) {
    /// The two coordinates as indices. A negative coordinate comes out as
    /// the unsigned number of the same bits, sign-extended.
    fn from(cell: Cell) -> (index: (usize, usize))
        ensures
            cell.x >= 0 ==> index.0 == cell.x,
            cell.y >= 0 ==> index.1 == cell.y,
    {
        (
            #[verifier::truncate]
            (cell.x as usize),
            #[verifier::truncate]
            (cell.y as usize),
        )
    }
}

impl vstd::std_specs::convert::FromSpecImpl<Cell> for (usize, usize) {
    open spec fn obeys_from_spec() -> bool {
        true
    }

    open spec fn from_spec(cell: Cell) -> (usize, usize) {
        (cell.x as usize, cell.y as usize)
    }
}

/// The ten decimal digits.
pub open spec fn digits() -> Seq<char> {
    seq!['0', '1', '2', '3', '4', '5', '6', '7', '8', '9']
}

/// A natural number in decimal, without leading zeros.
pub open spec fn decimal_nat(n: nat) -> Seq<char>
    decreases n,
{
    if n < 10 {
        seq![digits()[n as int]]
    } else {
        decimal_nat(n / 10).push(digits()[(n % 10) as int])
    }
}

/// An integer in decimal, with a minus sign where it is negative.
pub open spec fn decimal(v: int) -> Seq<char> {
    if v < 0 {
        seq!['-'] + decimal_nat((-v) as nat)
    } else {
        decimal_nat(v as nat)
    }
}

/// The one-letter text of the digit `d`.
fn digit_str(d: u32) -> (text: &'static str)
    requires
        d < 10,
    ensures
        text@ == seq![digits()[d as int]],
{
    proof {
        reveal_strlit("0");
        reveal_strlit("1");
        reveal_strlit("2");
        reveal_strlit("3");
        reveal_strlit("4");
        reveal_strlit("5");
        reveal_strlit("6");
        reveal_strlit("7");
        reveal_strlit("8");
        reveal_strlit("9");
    }
    let text = match d {
        0 => "0",
        1 => "1",
        2 => "2",
        3 => "3",
        4 => "4",
        5 => "5",
        6 => "6",
        7 => "7",
        8 => "8",
        _ => "9",
    };
    assert(text@ =~= seq![digits()[d as int]]);
    text
}

/// Writes `n` in decimal at the end of `out`.
fn append_decimal_nat(out: &mut String, n: u32)
    ensures
        final(out)@ == old(out)@ + decimal_nat(n as nat),
    decreases n,
{
    if n >= 10 {
        append_decimal_nat(out, n / 10);
    }
    out.append(digit_str(n % 10));
}

/// Writes `v` in decimal at the end of `out`.
fn append_decimal(out: &mut String, v: i32)
    ensures
        final(out)@ == old(out)@ + decimal(v as int),
{
    if v < 0 {
        proof {
            reveal_strlit("-");
        }
        out.append("-");
        assert(out@ =~= old(out)@ + seq!['-']);
        append_decimal_nat(out, (-(v as i64)) as u32);
    } else {
        append_decimal_nat(out, v as u32);
    }
}

impl Cell {
    /// The text of this cell: `x:`, the `x` coordinate in decimal, `, y:` and
    /// the `y` coordinate in decimal.
    pub open spec fn text(self) -> Seq<char> {
        seq!['x', ':'] + decimal(self.x as int) + seq![',', ' ', 'y', ':'] + decimal(self.y as int)
    }

    /// Renders this cell as `x:<x>, y:<y>`.
    pub fn to_string(&self) -> (text: String)
        ensures
            text@ == self.text(),
    {
        proof {
            reveal_strlit("x:");
            reveal_strlit(", y:");
        }
        let mut out = String::from_str("x:");
        assert(out@ =~= seq!['x', ':']);
        append_decimal(&mut out, self.x);
        let ghost before = out@;
        out.append(", y:");
        assert(out@ =~= before + seq![',', ' ', 'y', ':']);
        append_decimal(&mut out, self.y);
        out
    }
}

} // verus!
