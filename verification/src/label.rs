use vstd::prelude::*;

verus! {

/// True exactly of the 26 characters `'a'` through `'z'`, the label alphabet.
pub open spec fn is_lowercase_letter(c: char) -> bool {
    'a' <= c && c <= 'z'
}

/// The label assigned to position `i` of the ordered window list:
/// `alphabet[i % 26]` with `alphabet = "abcdefghijklmnopqrstuvwxyz"`.
pub open spec fn spec_label(i: nat) -> char {
    ((97 + (i % 26)) as u8) as char
}

/// Maps a window's position in the ordered list to its single-character
/// label, wrapping around after 26 entries.
pub fn label(i: usize) -> (c: char)
    ensures
        c == spec_label(i as nat),
{
    let code: u8 = 97 + (i % 26) as u8;
    code as char
}

/// Every label is a single lowercase letter, and label assignment wraps
/// around: positions `i` and `i + 26` receive the same (non-unique) label.
pub proof fn lemma_label_wraparound(i: nat)
    ensures
        is_lowercase_letter(spec_label(i)),
        spec_label(i + 26) == spec_label(i),
{
    assert((i + 26) % 26 == i % 26) by (nonlinear_arith);
}

} // verus!
