//! The event tag: which horizon crossing the solver is asked for.

use vstd::prelude::*;

verus! {

/// The two horizon crossings of the Moon on a given day. The tag only
/// selects the sign of the hour-angle offset in the rise/set solver; it
/// carries no other state.
#[derive(Clone, Copy, PartialEq, Eq, Structural, Debug)]
pub enum Event {
    Moonrise,
    Moonset,
}

/// Sign applied to the hour-angle half-width when it is folded into the
/// transit fraction of the day: a rise precedes the meridian crossing,
/// a set follows it.
pub open spec fn transit_offset_sign_spec(e: Event) -> int {
    match e {
        Event::Moonrise => -1,
        Event::Moonset => 1,
    }
}

/// Executable form of the offset sign, pinned to the specification.
pub fn transit_offset_sign(e: Event) -> (s: i64)
    ensures
        s == transit_offset_sign_spec(e),
{
    match e {
        Event::Moonrise => -1,
        Event::Moonset => 1,
    }
}

/// Swapping a rise for a set flips the direction in which the hour-angle
/// half-width moves the transit estimate: the two offsets are exact
/// opposites, so on a day with a genuine half-width the two events are
/// never handed the same estimate.
pub proof fn lemma_rise_set_signs_opposite()
    ensures
        transit_offset_sign_spec(Event::Moonrise) == -transit_offset_sign_spec(
            Event::Moonset,
        ),
        transit_offset_sign_spec(Event::Moonrise) != transit_offset_sign_spec(
            Event::Moonset,
        ),
{
}

} // verus!
