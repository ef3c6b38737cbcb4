//! Decomposition of a flag word into the known flags it contains.
//!
//! A flag word is shown by listing every known flag whose bits it contains,
//! scanning the known flags in order and claiming each matched flag's bits so
//! that no bit is attributed twice, and then the leftover bits that no known
//! flag accounts for.

use vstd::prelude::*;

verus! {

/// True when `bit` is a real flag (not the empty word) and every one of its
/// bits is still present among the unclaimed bits `acc`.
pub open spec fn flag_applies(acc: u64, bit: u64) -> bool {
    bit != 0 && acc & bit == bit
}

/// The indices of the known flags the decomposition selects, scanning `known`
/// from position `i` with unclaimed bits `acc`: a flag is selected when it
/// fully applies to the unclaimed bits, which it then claims.
pub open spec fn selected_flags(known: Seq<u64>, i: int, acc: u64) -> Seq<int>
    decreases known.len() - i,
    when 0 <= i <= known.len()
{
    if i >= known.len() {
        Seq::empty()
    } else if flag_applies(acc, known[i]) {
        seq![i] + selected_flags(known, i + 1, acc & !known[i])
    } else {
        selected_flags(known, i + 1, acc)
    }
}

/// The bits of `acc` left over once every flag selected from position `i`
/// onwards has claimed its bits.
pub open spec fn residual_flags(known: Seq<u64>, i: int, acc: u64) -> u64
    decreases known.len() - i,
    when 0 <= i <= known.len()
{
    if i >= known.len() {
        acc
    } else if flag_applies(acc, known[i]) {
        residual_flags(known, i + 1, acc & !known[i])
    } else {
        residual_flags(known, i + 1, acc)
    }
}

/// The flag bits named by the picked indices, combined into one word.
pub open spec fn or_flags(known: Seq<u64>, picked: Seq<int>) -> u64
    decreases picked.len(),
{
    if picked.len() == 0 {
        0u64
    } else {
        known[picked[0]] | or_flags(known, picked.skip(1))
    }
}

/// The decomposition loses nothing and invents nothing: the bits of the
/// selected flags, together with the residual bits, are exactly the bits of
/// the word the scan started from.
pub proof fn lemma_flags_account_for_word(known: Seq<u64>, i: int, acc: u64)
    requires
        0 <= i <= known.len(),
    ensures
        or_flags(known, selected_flags(known, i, acc)) | residual_flags(known, i, acc) == acc,
    decreases known.len() - i,
{
    if i >= known.len() {
        assert(or_flags(known, selected_flags(known, i, acc)) == 0);
        assert(0u64 | acc == acc) by (bit_vector);
    } else if flag_applies(acc, known[i]) {
        let b = known[i];
        lemma_flags_account_for_word(known, i + 1, acc & !b);
        let rest = selected_flags(known, i + 1, acc & !b);
        let s = seq![i] + rest;
        assert(selected_flags(known, i, acc) == s);
        assert(s[0] == i);
        assert(s.skip(1) =~= rest);
        let x = or_flags(known, rest);
        let y = residual_flags(known, i + 1, acc & !b);
        assert(or_flags(known, s) == (b | x));
        assert((x | y) == (acc & !b));
        assert((b | x) | y == b | (x | y)) by (bit_vector);
        assert((acc & b == b) ==> ((b | (acc & !b)) == acc)) by (bit_vector);
    } else {
        lemma_flags_account_for_word(known, i + 1, acc);
    }
}

/// Splits `value` over the known flags: the indices of the flags that are
/// shown, in order, each claiming its bits so no bit is shown twice, and the
/// leftover bits no known flag accounts for.
pub fn debug_flags(known: &Vec<u64>, value: u64) -> (r: (Vec<usize>, u64))
    ensures
        r.0@.map_values(|k: usize| k as int) == selected_flags(known@, 0, value),
        r.1 == residual_flags(known@, 0, value),
        forall|j: int| 0 <= j < r.0@.len() ==> r.0@[j] < known@.len(),
        or_flags(known@, r.0@.map_values(|k: usize| k as int)) | r.1 == value,
{
    proof {
        lemma_flags_account_for_word(known@, 0, value);
    }
    let mut taken: Vec<usize> = Vec::new();
    let mut acc: u64 = value;
    let mut i: usize = 0;
    while i < known.len()
        invariant
            i <= known@.len(),
            selected_flags(known@, 0, value) == taken@.map_values(|k: usize| k as int)
                + selected_flags(known@, i as int, acc),
            residual_flags(known@, 0, value) == residual_flags(known@, i as int, acc),
            forall|j: int| 0 <= j < taken@.len() ==> taken@[j] < i,
        decreases known@.len() - i,
    {
        let bit = known[i];
        if bit != 0 && acc & bit == bit {
            let ghost prev = taken@;
            taken.push(i);
            assert(taken@.map_values(|k: usize| k as int) =~= prev.map_values(
                |k: usize| k as int,
            ) + seq![i as int]);
            assert(prev.map_values(|k: usize| k as int) + (seq![i as int] + selected_flags(
                known@,
                i + 1,
                (acc & !bit),
            )) =~= taken@.map_values(|k: usize| k as int) + selected_flags(
                known@,
                i + 1,
                (acc & !bit),
            ));
            acc = acc & !bit;
        }
        i = i + 1;
    }
    assert(taken@.map_values(|k: usize| k as int) + Seq::<int>::empty() =~= taken@.map_values(
        |k: usize| k as int,
    ));
    (taken, acc)
}

} // verus!
