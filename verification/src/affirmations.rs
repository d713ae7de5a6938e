//! The fixed pool of affirmation strings shown when a race finishes.
//!
//! The presenter draws a uniform random index (the draw itself is cosmetic
//! and lives outside the verified core); the lookup clamps the index to the
//! pool, so any index yields a pool entry.

use vstd::prelude::*;

verus! {

/// The number of affirmation strings in the pool.
pub const AFFIRMATION_COUNT: usize = 8;

/// The pool of affirmation strings, as character sequences.
pub open spec fn affirmation_pool() -> Seq<Seq<char>> {
    seq![
        "Lightning fingers!"@,
        "You are speed!"@,
        "Keyboard ninja!"@,
        "Blistering!"@,
        "Ridiculous!"@,
        "Godlike!"@,
        "Insane pace!"@,
        "Turbo mode!"@,
    ]
}

/// The affirmation at `index`, clamped to the last pool entry when the
/// index is out of range.
pub fn affirmation_text(index: usize) -> (r: &'static str)
    ensures
        r@ == affirmation_pool()[if index < AFFIRMATION_COUNT {
            index as int
        } else {
            AFFIRMATION_COUNT - 1
        }],
{
    match index {
        0 => "Lightning fingers!",
        1 => "You are speed!",
        2 => "Keyboard ninja!",
        3 => "Blistering!",
        4 => "Ridiculous!",
        5 => "Godlike!",
        6 => "Insane pace!",
        _ => "Turbo mode!",
    }
}

} // verus!
