//! The leader schedule: which authority is expected to author a slot.

use vstd::prelude::*;

verus! {

/// The index of the authority expected to author `slot` among `n` authorities.
pub open spec fn author_index(slot: u64, n: nat) -> int
    recommends
        n > 0,
{
    (slot as int) % (n as int)
}

/// The authority expected to author `slot`, or `None` where there is no authority at all.
pub open spec fn expected_author<A>(slot: u64, authorities: Seq<A>) -> Option<A> {
    if authorities.len() == 0 {
        None
    } else {
        Some(authorities[author_index(slot, authorities.len())])
    }
}

/// Returns the authority whose turn `slot` is: the entry at index `slot mod n` of a
/// sequence of `n` authorities, and `None` for an empty sequence.
pub fn slot_author<A>(slot: u64, authorities: &[A]) -> (author: Option<&A>)
    ensures
        author.is_some() == (authorities@.len() > 0),
        author matches Some(a) ==> expected_author(slot, authorities@) == Some(*a),
{
    let n: usize = authorities.len();
    if n == 0 {
        return None;
    }
    let idx: u64 = slot % (n as u64);
    Some(&authorities[idx as usize])
}

/// Exactly one authority is expected for a slot where there is any: the entry at
/// index `slot mod n`, which exists. Where there is none, nobody is expected.
pub proof fn lemma_expected_author<A>(slot: u64, authorities: Seq<A>)
    ensures
        authorities.len() == 0 ==> expected_author(slot, authorities) is None,
        authorities.len() > 0 ==> 0 <= (slot as int) % (authorities.len() as int)
            < authorities.len() && expected_author(slot, authorities) == Some(
            authorities[(slot as int) % (authorities.len() as int)],
        ),
{
}

/// The turns repeat: as many slots later as there are authorities, the same one is
/// expected again.
pub proof fn lemma_turns_repeat<A>(slot: u64, authorities: Seq<A>)
    requires
        slot + authorities.len() <= u64::MAX,
    ensures
        expected_author((slot + authorities.len()) as u64, authorities) == expected_author(
            slot,
            authorities,
        ),
{
    if authorities.len() > 0 {
        vstd::arithmetic::div_mod::lemma_mod_add_multiples_vanish(
            slot as int,
            authorities.len() as int,
        );
    }
}

} // verus!
