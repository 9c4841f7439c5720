use vstd::prelude::*;

use crate::config::SPEED_MAX;
use crate::geometry::Vec2;

verus! {

/// Relies on `rand::random::<bool>`: a fresh draw from the thread-local
/// generator, used as a fair coin for the relaunch direction.  Nothing is
/// promised of the outcome; every caller must hold for either value.
#[verifier::external_body]
pub(crate) fn coin_flip() -> bool {
    rand::random::<bool>()
}

/// Give `vec` a fresh launch velocity: each component is set to the given
/// magnitude with a sign drawn independently at random.
pub fn randomize_vec(vec: &mut Vec2, x: i64, y: i64)
    requires
        0 <= x <= SPEED_MAX,
        0 <= y <= SPEED_MAX,
    ensures
        final(vec).x == x || final(vec).x == -x,
        final(vec).y == y || final(vec).y == -y,
{
    let x_positive = coin_flip();
    let y_positive = coin_flip();
    vec.x = if x_positive {
        x
    } else {
        -x
    };
    vec.y = if y_positive {
        y
    } else {
        -y
    };
}

} // verus!
