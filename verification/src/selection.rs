use vstd::prelude::*;
use vstd::string::StrSliceExecFns;
use crate::label::{is_lowercase_letter, spec_label};

verus! {

/// The decision for one keypress, given the key's symbolic name and the
/// number of windows in the ordered list: either the index of the single
/// window the keypress selects, or no selection at all. A selection happens
/// exactly when the name is one character long, that character is a
/// lowercase letter, and its offset into the alphabet is the index of a
/// present window. The offset is used literally: display labels wrap around
/// past 26 windows, but resolution applies no modulo, so positions past 25
/// stay unreachable.
pub open spec fn spec_resolve(key_name: Seq<char>, window_count: nat) -> Option<int> {
    if key_name.len() == 1 && is_lowercase_letter(key_name[0]) && (key_name[0] as int
        - 'a' as int) < window_count {
        Some(key_name[0] as int - 'a' as int)
    } else {
        None
    }
}

/// Resolves one keypress event's symbolic name against the ordered window
/// list. Any name that selects nothing (several characters, not a lowercase
/// letter, or a letter past the end of the list) is the cancellation path:
/// the caller closes the overlay without focusing anything.
pub fn resolve_keypress(key_name: &str, window_count: usize) -> (r: Option<usize>)
    ensures
        (match r {
            Some(i) => spec_resolve(key_name@, window_count as nat) == Some(i as int),
            None => spec_resolve(key_name@, window_count as nat) is None,
        }),
        r matches Some(i) ==> i < window_count,
{
    if key_name.unicode_len() == 1 {
        let c = key_name.get_char(0);
        let code: u32 = c as u32;
        if 97 <= code && code <= 122 {
            let index = (code - 97) as usize;
            if index < window_count {
                return Some(index);
            }
        }
    }
    None
}

/// The resolver is a pure function of the key name and the window count:
/// equal inputs always yield the same decision.
pub proof fn lemma_resolver_deterministic(
    key_a: Seq<char>,
    key_b: Seq<char>,
    count_a: nat,
    count_b: nat,
)
    requires
        key_a == key_b,
        count_a == count_b,
    ensures
        spec_resolve(key_a, count_a) == spec_resolve(key_b, count_b),
{
}

/// With at most 26 windows, the label of each position `k` resolves to
/// exactly index `k` and to no other index.
pub proof fn lemma_label_selects_own_window(window_count: nat, k: nat)
    requires
        window_count <= 26,
        k < window_count,
    ensures
        spec_resolve(seq![spec_label(k)], window_count) == Some(k as int),
{
    assert(k % 26 == k);
}

/// Past 26 windows the displayed labels collide: the label of position
/// `k >= 26` resolves to the same decision as the label of `k % 26`,
/// because resolution uses the letter alone and the letter wraps.
pub proof fn lemma_wrapped_label_collides(window_count: nat, k: nat)
    requires
        k >= 26,
    ensures
        spec_resolve(seq![spec_label(k)], window_count) == spec_resolve(
            seq![spec_label(k % 26)],
            window_count,
        ),
{
    assert(k % 26 % 26 == k % 26) by (nonlinear_arith);
    assert(seq![spec_label(k)] =~= seq![spec_label(k % 26)]);
}

} // verus!
