use vstd::prelude::*;

verus! {

/// How many particles an emitter adds to its pool in one update: as many
/// as its spawn rate asks for (`requested`), but never more than the free
/// room left under `max_particles` by the `live` ones.
pub fn spawn_count(requested: usize, live: usize, max_particles: usize) -> (r: usize)
    ensures
        r == if live >= max_particles {
            0
        } else if requested <= max_particles - live {
            requested as int
        } else {
            max_particles - live
        },
{
    if live >= max_particles {
        0
    } else if requested <= max_particles - live {
        requested
    } else {
        max_particles - live
    }
}

} // verus!
