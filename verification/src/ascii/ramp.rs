use crate::text::str_eq;
use vstd::prelude::*;

verus! {

pub const STANDARD_NAME: &'static str = "standard";

pub const DETAILED_NAME: &'static str = "detailed";

/// The characters of the standard ramp, darkest first.
pub open spec fn standard_ramp() -> Seq<u8> {
    seq![32, 46, 58, 45, 61, 43, 42, 35, 37, 64]
}

/// The characters of the detailed ramp, darkest first.
pub open spec fn detailed_ramp() -> Seq<u8> {
    seq![32, 46, 39, 96, 94, 34, 44, 58, 59, 73, 108, 33, 105, 126, 43, 95, 45, 63, 93, 91, 125, 123, 49, 41, 40, 124, 92, 47, 116, 102, 106, 114, 120, 110, 117, 118, 99, 122, 88, 89, 85, 74, 67, 76, 81, 48, 79, 90, 109, 119, 113, 112, 100, 98, 107, 104, 97, 111, 42, 35, 77, 87, 38, 56, 37, 66, 64, 36]
}

/// Whether `name` names a ramp.
pub open spec fn valid_ramp_name(name: Seq<char>) -> bool {
    name == "standard"@ || name == "detailed"@
}

/// The ramp used for `name`: the detailed one for its name, the standard one for any other.
pub open spec fn ramp_for(name: Seq<char>) -> Seq<u8> {
    if name == "detailed"@ {
        detailed_ramp()
    } else {
        standard_ramp()
    }
}

/// The ramp that follows `name` when the user cycles ramps.
pub open spec fn next_ramp_name(name: Seq<char>) -> Seq<char> {
    if name == "standard"@ {
        "detailed"@
    } else {
        "standard"@
    }
}

/// Whether `name` names a ramp.
pub fn is_valid(name: &str) -> (r: bool)
    ensures
        r == valid_ramp_name(name@),
{
    str_eq(name, STANDARD_NAME) || str_eq(name, DETAILED_NAME)
}

/// The ramp for `name`; an unknown name gets the standard ramp.
pub fn by_name(name: &str) -> (r: &'static [u8])
    ensures
        r@ == ramp_for(name@),
{
    if str_eq(name, DETAILED_NAME) {
        let s = " .'`^\",:;Il!i~+_-?][}{1)(|\\/tfjrxnuvczXYUJCLQ0OZmwqpdbkhao*#MW&8%B@$";
        proof {
            reveal_strlit(" .'`^\",:;Il!i~+_-?][}{1)(|\\/tfjrxnuvczXYUJCLQ0OZmwqpdbkhao*#MW&8%B@$");
            assert(vstd::string::is_ascii(s));
        }
        let r = s.as_bytes();
        assert(r@ =~= detailed_ramp());
        r
    } else {
        let s = " .:-=+*#%@";
        proof {
            reveal_strlit(" .:-=+*#%@");
            assert(vstd::string::is_ascii(s));
        }
        let r = s.as_bytes();
        assert(r@ =~= standard_ramp());
        r
    }
}

/// The name of the ramp that follows `current`.
pub fn next_name(current: &str) -> (r: &'static str)
    ensures
        r@ == next_ramp_name(current@),
{
    if str_eq(current, STANDARD_NAME) {
        DETAILED_NAME
    } else {
        STANDARD_NAME
    }
}

/// Cycling ramps alternates between the two names, and always lands on a valid one.
pub proof fn law_ramp_cycle(name: Seq<char>)
    ensures
        valid_ramp_name(next_ramp_name(name)),
        valid_ramp_name(name) ==> next_ramp_name(next_ramp_name(name)) == name,
        ramp_for(next_ramp_name(name)) != ramp_for(name) || !valid_ramp_name(name),
{
    reveal_strlit("standard");
    reveal_strlit("detailed");
    assert("standard"@[0] != "detailed"@[0]);
    assert(standard_ramp().len() != detailed_ramp().len());
}

} // verus!
