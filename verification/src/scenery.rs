//! Integer rules of the scenery and effects: the car paint palette and the
//! cap on live spark particles.
use vstd::prelude::*;

use crate::catalog::{tint, Tint};

verus! {

/// Hard cap on live spark particles.
pub const MAX_PARTICLES: usize = 600;

/// Number of paints in the car palette.
pub const CAR_PAINTS: usize = 6;

/// Car paint `j` of the palette, in hundredths: two taxi yellows, two
/// blacks, a silver and a white.
pub open spec fn car_paint(j: int) -> Tint {
    if j == 0 || j == 1 {
        tint(95, 78, 10)
    } else if j == 2 {
        tint(5, 5, 6)
    } else if j == 3 {
        tint(6, 6, 7)
    } else if j == 4 {
        tint(55, 57, 60)
    } else {
        tint(85, 85, 90)
    }
}

/// Body paint of car `i`: the palette, cycled.
pub fn car_color(i: usize) -> (c: Tint)
    ensures
        c == car_paint((i % CAR_PAINTS) as int),
{
    let j = i % CAR_PAINTS;
    if j == 0 || j == 1 {
        Tint { r: 95, g: 78, b: 10 }
    } else if j == 2 {
        Tint { r: 5, g: 5, b: 6 }
    } else if j == 3 {
        Tint { r: 6, g: 6, b: 7 }
    } else if j == 4 {
        Tint { r: 55, g: 57, b: 60 }
    } else {
        Tint { r: 85, g: 85, b: 90 }
    }
}

/// How many of `requested` new sparks a burst spawns when `live` sparks are
/// alive: sparks are added one by one until the cap is reached, so a burst
/// never takes the live sparks past the cap.
pub fn spark_count(live: usize, requested: usize) -> (n: usize)
    ensures
        live >= MAX_PARTICLES ==> n == 0,
        live < MAX_PARTICLES ==> n == if requested <= MAX_PARTICLES - live {
            requested as int
        } else {
            MAX_PARTICLES - live
        },
        live <= MAX_PARTICLES ==> live + n <= MAX_PARTICLES,
        n <= requested,
{
    if live >= MAX_PARTICLES {
        return 0;
    }
    let room = MAX_PARTICLES - live;
    if requested <= room {
        requested
    } else {
        room
    }
}


/// The palette, in order: taxi yellow twice, black twice, silver, white.
pub proof fn lemma_car_palette(i: usize)
    ensures
        car_paint((i % CAR_PAINTS) as int) == seq![
            tint(95, 78, 10),
            tint(95, 78, 10),
            tint(5, 5, 6),
            tint(6, 6, 7),
            tint(55, 57, 60),
            tint(85, 85, 90),
        ][(i % CAR_PAINTS) as int],
{
    let j = (i % CAR_PAINTS) as int;
    if j == 0 {
    } else if j == 1 {
    } else if j == 2 {
    } else if j == 3 {
    } else if j == 4 {
    } else {
    }
}

} // verus!
