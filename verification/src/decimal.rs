use vstd::prelude::*;

verus! {

/// The ASCII decimal rendering of a number: most significant digit first,
/// no leading zeros, a single zero for zero itself.
pub open spec fn decimal_of(n: u64) -> Seq<u8>
    decreases n,
{
    if n < 10 {
        seq![(0x30 + n) as u8]
    } else {
        decimal_of(n / 10) + seq![(0x30 + n % 10) as u8]
    }
}

/// Renders a number as ASCII decimal digits.
pub fn format_u64(n: u64) -> (r: Vec<u8>)
    ensures
        r@ == decimal_of(n),
    decreases n,
{
    if n < 10 {
        let mut v: Vec<u8> = Vec::new();
        v.push(0x30 + (n as u8));
        proof {
            assert(v@ =~= decimal_of(n));
        }
        v
    } else {
        proof {
            assert(n / 10 < n) by (nonlinear_arith)
                requires n >= 10;
        }
        let mut v = format_u64(n / 10);
        v.push(0x30 + ((n % 10) as u8));
        proof {
            assert(v@ =~= decimal_of(n));
        }
        v
    }
}

} // verus!
