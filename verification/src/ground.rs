//! The grounded detector: whether something the player touches lies below
//! it.

use crate::playable::Playable;
use vstd::prelude::*;

verus! {

/// Whether the contact at `i` supports a player at height `player_y`: its
/// vertical position is known and strictly below the player's.
pub open spec fn supports(contacts: Seq<Option<i64>>, i: int, player_y: int) -> bool {
    0 <= i < contacts.len() && contacts[i] is Some && contacts[i].unwrap() < player_y
}

/// Whether a player at height `player_y` stands on something.
///
/// Each entry of `contacts` is the vertical position of one thing that the
/// player touches, or `None` where that thing could not be found. A contact
/// that could not be found supports nothing.
pub open spec fn supported(player_y: int, contacts: Seq<Option<i64>>) -> bool {
    exists|i: int| supports(contacts, i, player_y)
}

/// Nothing supports a player that touches nothing.
pub proof fn lemma_no_contact_no_ground(player_y: int)
    ensures
        !supported(player_y, Seq::<Option<i64>>::empty()),
{
}

/// Contacts that could not be found support nothing.
pub proof fn lemma_unknown_contacts_ignored(player_y: int, contacts: Seq<Option<i64>>)
    requires
        forall|i: int| 0 <= i < contacts.len() ==> contacts[i] is None,
    ensures
        !supported(player_y, contacts),
{
}

/// Says whether a player at height `player_y` stands on something.
pub fn is_grounded(player_y: i64, contacts: &Vec<Option<i64>>) -> (grounded: bool)
    ensures
        grounded == supported(player_y as int, contacts@),
        contacts@.len() == 0 ==> !grounded,
{
    let mut i: usize = 0;
    while i < contacts.len()
        invariant
            0 <= i <= contacts.len(),
            forall|j: int| 0 <= j < i ==> !supports(contacts@, j, player_y as int),
        decreases contacts.len() - i,
    {
        match contacts[i] {
            Some(y) => {
                if y < player_y {
                    assert(supports(contacts@, i as int, player_y as int));
                    return true;
                }
            },
            None => {},
        }
        i = i + 1;
    }
    false
}

/// Sets the player's grounded flag from the contacts of this tick. The flag
/// that the player had before plays no part.
pub fn detect_grounded(player: &mut Playable, player_y: i64, contacts: &Vec<Option<i64>>)
    ensures
        final(player).grounded == supported(player_y as int, contacts@),
        contacts@.len() == 0 ==> !final(player).grounded,
        final(player).velocity == old(player).velocity,
        final(player).damping == old(player).damping,
{
    player.grounded = is_grounded(player_y, contacts);
}

} // verus!
