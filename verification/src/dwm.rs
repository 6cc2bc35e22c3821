//! The compositor nudge: a transient flip of the desktop compositor's
//! colorization color, written and then restored, purely so window managers
//! notice a change and repaint. Not meaningful domain state.

use vstd::prelude::*;

verus! {

/// The colorization value assumed when none is stored.
pub const DEFAULT_COLORIZATION: u32 = 0xffd77800;

/// How long the shell waits between the flip and the restore, in
/// milliseconds, to give window managers time to observe the change.
pub const REFRESH_SETTLE_MILLIS: u64 = 1000;

/// The bounded wait for each broadcast, in milliseconds; hung windows are
/// abandoned rather than waited on.
pub const BROADCAST_TIMEOUT_MILLIS: u32 = 5000;

/// The colorization value a read of the compositor key yields: the stored
/// value, or the default where none is stored.
pub open spec fn spec_effective_colorization(v: Option<u32>) -> u32 {
    match v {
        Some(x) => x,
        None => DEFAULT_COLORIZATION,
    }
}

/// The transient colorization value: the low hex digit moved by one, up when
/// it has room, down from its maximum. Always differs from its argument.
pub open spec fn spec_flip_colorization(c: u32) -> u32 {
    if c & 0xF < 0xF {
        (c + 1) as u32
    } else {
        (c - 1) as u32
    }
}

pub fn flip_colorization(c: u32) -> (r: u32)
    ensures
        r == spec_flip_colorization(c),
        r != c,
{
    if c & 0xF < 0xF {
        proof {
            assert(c & 0xF < 0xF ==> c != 0xffffffffu32) by (bit_vector);
        }
        c + 1
    } else {
        proof {
            assert(!(c & 0xF < 0xF) ==> c != 0u32) by (bit_vector);
        }
        c - 1
    }
}

/// The two colorization writes of a compositor nudge, from the stored value:
/// first the transient value, then the original to restore. Restoring leaves
/// the effective colorization as it was found.
pub fn dwm_refresh_values(stored: Option<u32>) -> (r: (u32, u32))
    ensures
        r.1 == spec_effective_colorization(stored),
        r.0 == spec_flip_colorization(r.1),
        r.0 != r.1,
{
    let original: u32 = match stored {
        Some(x) => x,
        None => DEFAULT_COLORIZATION,
    };
    (flip_colorization(original), original)
}

} // verus!
