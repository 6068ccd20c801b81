use vstd::prelude::*;
use vstd::string::StringSliceAdditionalSpecFns;

use crate::reads::StrandSpecificExperimentDesign;

verus! {

/// How reads carry the strand of their transcript.
#[derive(Clone, Copy, Debug, PartialEq, Eq, Structural, Hash)]
pub enum Stranding {
    Unstranded,
    Stranded(StrandSpecificExperimentDesign),
}

/// The stranding that a symbol names: `u`, `s`, `f`, `s/f` or `f/s`.
pub open spec fn spec_stranding_of(b: Seq<u8>) -> Option<Stranding> {
    if b == seq![117u8] {
        Some(Stranding::Unstranded)
    } else if b == seq![115u8] {
        Some(Stranding::Stranded(StrandSpecificExperimentDesign::Same))
    } else if b == seq![102u8] {
        Some(Stranding::Stranded(StrandSpecificExperimentDesign::Flip))
    } else if b == seq![115u8, 47u8, 102u8] {
        Some(Stranding::Stranded(StrandSpecificExperimentDesign::Same1Flip2))
    } else if b == seq![102u8, 47u8, 115u8] {
        Some(Stranding::Stranded(StrandSpecificExperimentDesign::Flip1Same2))
    } else {
        None
    }
}

/// Decimal digits only.
pub open spec fn spec_all_digits(d: Seq<u8>) -> bool {
    forall|i: int| 0 <= i < d.len() ==> 48 <= #[trigger] d[i] <= 57
}

/// The value of decimal digits.
pub open spec fn spec_digits_value(d: Seq<u8>) -> nat
    decreases d.len(),
{
    if d.len() == 0 {
        0
    } else {
        spec_digits_value(d.drop_last()) * 10 + (d.last() - 48) as nat
    }
}

/// The value of an optional `+` followed by at least one decimal digit.
pub open spec fn spec_parse_decimal(b: Seq<u8>) -> Option<nat> {
    let d = if b.len() > 0 && b[0] == 43u8 {
        b.subrange(1, b.len() as int)
    } else {
        b
    };
    if d.len() > 0 && spec_all_digits(d) {
        Some(spec_digits_value(d))
    } else {
        None
    }
}

/// What `str::parse::<u32>` gives: a decimal number that fits.
pub open spec fn spec_parse_u32(b: Seq<u8>) -> Option<u32> {
    match spec_parse_decimal(b) {
        Some(v) if v <= u32::MAX => Some(v as u32),
        _ => None,
    }
}

/// What `str::parse::<u64>` gives: a decimal number that fits.
pub open spec fn spec_parse_u64(b: Seq<u8>) -> Option<u64> {
    match spec_parse_decimal(b) {
        Some(v) if v <= u64::MAX => Some(v as u64),
        _ => None,
    }
}

/// Relies on `str::parse::<u32>` (`u32::from_str`): `Ok` exactly for an optional
/// `+` followed by decimal digits whose value fits in a `u32`.
#[verifier::external_body]
fn parse_u32(s: &str) -> (r: Option<u32>)
    ensures
        r == spec_parse_u32(s.spec_bytes()),
{
    s.parse::<u32>().ok()
}

/// Relies on `str::parse::<u64>` (`u64::from_str`): `Ok` exactly for an optional
/// `+` followed by decimal digits whose value fits in a `u64`.
#[verifier::external_body]
pub(crate) fn parse_u64(s: &str) -> (r: Option<u64>)
    ensures
        r == spec_parse_u64(s.spec_bytes()),
{
    s.parse::<u64>().ok()
}

fn bytes_eq(b: &[u8], lit: &[u8]) -> (r: bool)
    ensures
        r == (b@ == lit@),
{
    if b.len() != lit.len() {
        return false;
    }
    let mut i: usize = 0;
    while i < b.len()
        invariant
            b@.len() == lit@.len(),
            i <= b@.len(),
            forall|j: int| 0 <= j < i ==> b@[j] == lit@[j],
        decreases b@.len() - i,
    {
        if b[i] != lit[i] {
            return false;
        }
        i += 1;
    }
    assert(b@ =~= lit@);
    true
}

impl Stranding {
    /// The stranding that `s` names.
    pub fn parse(s: &str) -> (r: Result<Stranding, String>)
        ensures
            match r {
                Ok(x) => spec_stranding_of(s.spec_bytes()) == Some(x),
                Err(_) => spec_stranding_of(s.spec_bytes()) is None,
            },
    {
        let b = s.as_bytes();
        if bytes_eq(b, &[117u8]) {
            assert(seq![117u8] =~= [117u8]@);
            Ok(Stranding::Unstranded)
        } else if bytes_eq(b, &[115u8]) {
            assert(seq![115u8] =~= [115u8]@);
            Ok(Stranding::Stranded(StrandSpecificExperimentDesign::Same))
        } else if bytes_eq(b, &[102u8]) {
            assert(seq![102u8] =~= [102u8]@);
            Ok(Stranding::Stranded(StrandSpecificExperimentDesign::Flip))
        } else if bytes_eq(b, &[115u8, 47u8, 102u8]) {
            assert(seq![115u8, 47u8, 102u8] =~= [115u8, 47u8, 102u8]@);
            Ok(Stranding::Stranded(StrandSpecificExperimentDesign::Same1Flip2))
        } else if bytes_eq(b, &[102u8, 47u8, 115u8]) {
            assert(seq![102u8, 47u8, 115u8] =~= [102u8, 47u8, 115u8]@);
            Ok(Stranding::Stranded(StrandSpecificExperimentDesign::Flip1Same2))
        } else {
            proof {
                assert(seq![117u8] =~= [117u8]@);
                assert(seq![115u8] =~= [115u8]@);
                assert(seq![102u8] =~= [102u8]@);
                assert(seq![115u8, 47u8, 102u8] =~= [115u8, 47u8, 102u8]@);
                assert(seq![102u8, 47u8, 115u8] =~= [102u8, 47u8, 115u8]@);
            }
            Err("stranding must be one of: u, s, f, s/f, f/s".to_owned())
        }
    }
}

/// Accepts a stranding symbol: `u`, `s`, `f`, `s/f` or `f/s`.
pub fn stranding(symbol: &str) -> (r: Result<(), String>)
    ensures
        r is Ok <==> spec_stranding_of(symbol.spec_bytes()) is Some,
{
    match Stranding::parse(symbol) {
        Ok(_) => Ok(()),
        Err(x) => Err(x),
    }
}

/// A check that a value is a decimal `u32` inside `[low, upper]`.
pub fn numeric(low: u32, upper: u32) -> (r: impl Fn(&str) -> Result<(), String>)
    ensures
        forall|val: &str, res: Result<(), String>|
            call_ensures(r, (val,), res) ==> (res is Ok <==> (spec_parse_u32(val.spec_bytes()) matches Some(x) && low <= x <= upper)),
{
    move |val: &str| -> (res: Result<(), String>)
        ensures
            res is Ok <==> (spec_parse_u32(val.spec_bytes()) matches Some(x) && low <= x <= upper),
        {
            match parse_u32(val) {
                None => Err("failed to parse a number".to_owned()),
                Some(x) => if x < low || x > upper {
                    Err("value is out of the expected range".to_owned())
                } else {
                    Ok(())
                },
            }
        }
}

} // verus!
