//! The advisory broadcast that tells running applications the theme changed.
//! The library prepares the message parameter; the shell sends it to all
//! top-level windows with a bounded wait. A failed or timed-out broadcast is
//! never surfaced: the switch has already taken effect.

use vstd::prelude::*;
use vstd::string::StringSliceAdditionalSpecFns;

verus! {

/// The setting name carried by the settings-change broadcast.
pub fn broadcast_setting_name() -> (r: &'static str)
    ensures
        r@ == "ImmersiveColorSet"@,
{
    "ImmersiveColorSet"
}

/// The message parameter for a broadcast: each byte of the name widened to
/// 16 bits, with a terminating NUL. For an ASCII name — the only kind the
/// switcher broadcasts — this is its UTF-16 encoding, NUL-terminated.
pub fn wide_nul_param(s: &str) -> (r: Vec<u16>)
    ensures
        r@.len() == s.spec_bytes().len() + 1,
        forall|i: int| 0 <= i < s.spec_bytes().len() ==> r@[i] == s.spec_bytes()[i] as u16,
        r@[r@.len() - 1] == 0,
{
    let bs: &[u8] = s.as_bytes();
    let mut r: Vec<u16> = Vec::new();
    let mut i: usize = 0;
    while i < bs.len()
        invariant
            i <= bs.len(),
            bs@ == s.spec_bytes(),
            r@.len() == i,
            forall|j: int| 0 <= j < i ==> r@[j] == bs@[j] as u16,
        decreases bs.len() - i,
    {
        r.push(bs[i] as u16);
        i = i + 1;
    }
    r.push(0);
    r
}

} // verus!
