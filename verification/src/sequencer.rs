//! The sequencer: one line per integer from 1 to 99, each number paired
//! with its label in the form `<number>: <label>`.

use vstd::prelude::*;
use vstd::string::StringExecFns;
use crate::classifier::{fizz_buzz, spec_label};
use crate::decimal::{decimal_chars, decimal_string};

verus! {

/// The output line for `x`: its decimal text, a colon and a space, and
/// its label.
pub open spec fn spec_line(x: u32) -> Seq<char> {
    decimal_chars(x as nat) + ": "@ + spec_label(x)
}

/// Renders the output line for `x`.
pub fn fizz_buzz_line(x: u32) -> (r: String)
    ensures
        r@ == spec_line(x),
{
    let (n, label) = fizz_buzz(x);
    let mut line = decimal_string(n);
    line.append(": ");
    line.append(label.as_str());
    line
}

/// Produces the whole run: the lines for 1 through 99, in ascending
/// order. The range starts at 1 and ends at 99, so neither 0 nor 100
/// ever appears.
pub fn fizz_buzz_lines() -> (r: Vec<String>)
    ensures
        r.len() == 99,
        forall|i: int| 0 <= i < 99 ==> #[trigger] r[i]@ == spec_line((i + 1) as u32),
{
    let mut lines: Vec<String> = Vec::new();
    let mut x: u32 = 1;
    while x < 100
        invariant
            1 <= x <= 100,
            lines.len() == x - 1,
            forall|i: int| 0 <= i < x - 1 ==> #[trigger] lines[i]@ == spec_line((i + 1) as u32),
        decreases 100 - x,
    {
        lines.push(fizz_buzz_line(x));
        x = x + 1;
    }
    lines
}

} // verus!
