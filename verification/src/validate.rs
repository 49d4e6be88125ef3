//! Identifier validation: the checks every request runs before it leaves
//! the process.

use vstd::prelude::*;

verus! {

/// An ASCII decimal digit.
pub open spec fn spec_ascii_digit(c: char) -> bool {
    '0' <= c && c <= '9'
}

/// A well-formed provider identifier (NPI): exactly 10 characters, all
/// ASCII digits. No checksum or further structure is validated.
pub open spec fn spec_valid_npi(s: Seq<char>) -> bool {
    s.len() == 10 && (forall|i: int| 0 <= i < s.len() ==> spec_ascii_digit(s[i]))
}

/// Whether the string is a well-formed provider identifier.
pub fn is_valid_npi(npi: &str) -> (r: bool)
    ensures
        r == spec_valid_npi(npi@),
{
    let len = npi.unicode_len();
    if len != 10 {
        return false;
    }
    let mut i: usize = 0;
    while i < len
        invariant
            i <= len,
            len == npi@.len(),
            len == 10,
            forall|j: int| 0 <= j < i ==> spec_ascii_digit(npi@[j]),
        decreases len - i,
    {
        let c = npi.get_char(i);
        if !(c >= '0' && c <= '9') {
            return false;
        }
        i = i + 1;
    }
    true
}

/// The message that reports one malformed provider identifier.
pub open spec fn spec_invalid_npi_message(npi: Seq<char>) -> Seq<char> {
    "Invalid NPI format: '"@ + npi + "'. NPIs must be 10-digit numbers"@
}

/// Every entry of the list is a well-formed provider identifier.
pub open spec fn spec_all_npis_valid(npis: Seq<String>) -> bool {
    forall|i: int| 0 <= i < npis.len() ==> spec_valid_npi(npis[i]@)
}

/// The first entry that is not a well-formed provider identifier, if any;
/// entries are scanned in list order.
pub fn find_invalid_npi(npis: &Vec<String>) -> (r: Option<usize>)
    ensures
        match r {
            Some(i) => {
                &&& i < npis@.len()
                &&& !spec_valid_npi(npis@[i as int]@)
                &&& forall|j: int| 0 <= j < i ==> spec_valid_npi(npis@[j]@)
            },
            None => spec_all_npis_valid(npis@),
        },
{
    let mut i: usize = 0;
    while i < npis.len()
        invariant
            i <= npis@.len(),
            forall|j: int| 0 <= j < i ==> spec_valid_npi(npis@[j]@),
        decreases npis@.len() - i,
    {
        if !is_valid_npi(npis[i].as_str()) {
            return Some(i);
        }
        i = i + 1;
    }
    None
}

} // verus!
