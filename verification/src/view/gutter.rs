//! Line numbers: their decimal text and the width of the column they need.
use vstd::prelude::*;

verus! {

/// The character of a decimal digit.
pub open spec fn digit(d: nat) -> char {
    (48 + d) as char
}

/// The decimal text of a number, without sign or leading zeros.
pub open spec fn decimal(n: nat) -> Seq<char>
    decreases n,
{
    if n < 10 {
        seq![digit(n)]
    } else {
        decimal(n / 10).push(digit(n % 10))
    }
}

/// A run of spaces.
pub open spec fn spaces(count: int) -> Seq<char> {
    Seq::new(
        if count < 0 {
            0nat
        } else {
            count as nat
        },
        |i: int| ' ',
    )
}

/// A line number as the gutter shows it: right-aligned in a column of the
/// given width, followed by a gap of two spaces.
pub open spec fn line_number_text(number: nat, width: nat) -> Seq<char> {
    spaces(width - decimal(number).len()) + decimal(number) + spaces(2)
}

/// The largest line number that a window shows of a buffer of
/// `line_count` lines: the number of its last line, or of the buffer's
/// last line where the window reaches past it.
pub open spec fn largest_visible_number(line_count: int, offset: int, height: int) -> int {
    if offset + height < line_count {
        offset + height
    } else {
        line_count
    }
}

/// The width of the line number column: the digits of the largest line
/// number in sight, and one column of padding before them.
pub open spec fn number_width(line_count: int, offset: int, height: int) -> int {
    (decimal(largest_visible_number(line_count, offset, height) as nat).len() + 1) as int
}

/// A number below ten to the power of `k` has at most `k` digits.
pub proof fn lemma_decimal_bounded(n: nat, k: nat)
    requires
        k >= 1,
    ensures
        1 <= decimal(n).len(),
        n < power_of_ten(k) ==> decimal(n).len() <= k,
        forall|i: int| 0 <= i < decimal(n).len() ==> '0' <= #[trigger] decimal(n)[i] <= '9',
    decreases n,
{
    if n >= 10 {
        if k >= 2 {
            lemma_decimal_bounded(n / 10, (k - 1) as nat);
            assert(n < power_of_ten(k) ==> n / 10 < power_of_ten((k - 1) as nat)) by {
                assert(power_of_ten(k) == 10 * power_of_ten((k - 1) as nat));
            }
        } else {
            lemma_decimal_bounded(n / 10, 1);
            assert(power_of_ten(1) == 10) by {
                reveal_with_fuel(power_of_ten, 2);
            }
        }
    }
}

/// Ten to the power of `k`.
pub open spec fn power_of_ten(k: nat) -> nat
    decreases k,
{
    if k == 0 {
        1
    } else {
        10 * power_of_ten((k - 1) as nat)
    }
}

/// The decimal text of a number.
pub fn decimal_digits(n: usize) -> (r: Vec<char>)
    ensures
        r@ == decimal(n as nat),
        1 <= r@.len() <= 20,
{
    let mut out: Vec<char> = Vec::new();
    let mut rest: usize = n;
    while rest >= 10
        invariant
            decimal(n as nat) == decimal(rest as nat) + out@,
        decreases rest,
    {
        let d: u8 = (rest % 10) as u8;
        proof {
            assert(decimal(rest as nat) == decimal((rest / 10) as nat).push(digit((rest % 10) as nat)));
            assert(decimal((rest / 10) as nat).push(digit((rest % 10) as nat)) + out@ =~= decimal(
                (rest / 10) as nat,
            ) + out@.insert(0, digit((rest % 10) as nat)));
            assert((48 + d) as char == digit((rest % 10) as nat));
        }
        out.insert(0, (48 + d) as char);
        rest = rest / 10;
    }
    let d: u8 = rest as u8;
    proof {
        assert(decimal(rest as nat) + out@ =~= out@.insert(0, digit(rest as nat)));
    }
    out.insert(0, (48 + d) as char);
    proof {
        assert(power_of_ten(20) > u64::MAX) by {
            reveal_with_fuel(power_of_ten, 21);
        }
        lemma_decimal_bounded(n as nat, 20);
    }
    out
}

/// The text of a line number in a column of the given width.
pub fn line_number(number: usize, width: usize) -> (r: Vec<char>)
    ensures
        r@ == line_number_text(number as nat, width as nat),
        r@.len() >= width + 2,
{
    let digits = decimal_digits(number);
    let mut out: Vec<char> = Vec::new();
    let padding: usize = if width > digits.len() {
        width - digits.len()
    } else {
        0
    };
    let mut i: usize = 0;
    while i < padding
        invariant
            i <= padding,
            out@ == spaces(i as int),
        decreases padding - i,
    {
        out.push(' ');
        i += 1;
        proof {
            assert(out@ =~= spaces(i as int));
        }
    }
    proof {
        assert(spaces(padding as int) =~= spaces(width - digits@.len()));
    }
    let mut j: usize = 0;
    while j < digits.len()
        invariant
            j <= digits.len(),
            out@ == spaces(width - digits@.len()) + digits@.take(j as int),
        decreases digits.len() - j,
    {
        out.push(digits[j]);
        j += 1;
        proof {
            assert(digits@.take(j as int) =~= digits@.take(j - 1).push(digits@[j - 1]));
            assert(out@ =~= spaces(width - digits@.len()) + digits@.take(j as int));
        }
    }
    proof {
        assert(digits@.take(digits@.len() as int) =~= digits@);
    }
    out.push(' ');
    out.push(' ');
    proof {
        assert(out@ =~= line_number_text(number as nat, width as nat));
    }
    out
}

/// The width of the line number column for a window onto a buffer.
pub fn line_number_width(line_count: usize, offset: usize, height: usize) -> (r: usize)
    ensures
        r == number_width(line_count as int, offset as int, height as int),
        2 <= r <= 21,
{
    let bottom: usize = offset.saturating_add(height);
    let largest: usize = if bottom < line_count {
        bottom
    } else {
        line_count
    };
    decimal_digits(largest).len() + 1
}

} // verus!
