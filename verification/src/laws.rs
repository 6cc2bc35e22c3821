//! The laws of the switcher, stated over the same spec functions that the
//! executable functions' contracts use, and proved once for all states.

use vstd::prelude::*;

use crate::state::{
    spec_effective, spec_read_theme, spec_set_state, spec_theme_toggle, spec_toggle_target,
    PersonalizeValues, ServiceConfig,
};
use crate::theme::ThemeLabel;

verus! {

/// A stored system value of 1 reads as light and 0 as dark; a missing one
/// reads as light, the default.
pub proof fn lemma_read_maps_stored_value(s: PersonalizeValues)
    ensures
        s.system_uses_light == Some(1u32) ==> spec_read_theme(s) is Light,
        s.system_uses_light == Some(0u32) ==> spec_read_theme(s) is Dark,
        s.system_uses_light is None ==> spec_read_theme(s) is Light,
{
}

/// Reads are idempotent: two reads with no write between them observe the
/// same stored state, and the same stored state yields the same label.
pub proof fn lemma_read_idempotent(s1: PersonalizeValues, s2: PersonalizeValues)
    requires
        s1 == s2,
    ensures
        spec_read_theme(s1) == spec_read_theme(s2),
{
}

/// Toggling twice in succession, with no outside mutation between the two
/// calls, restores the effective system value — and with it the theme a read
/// yields — for the valid stored values 0 and 1 and for a missing value.
pub proof fn lemma_toggle_twice_restores(s: PersonalizeValues, cfg: ServiceConfig)
    requires
        s.system_uses_light is Some ==> s.system_uses_light == Some(0u32)
            || s.system_uses_light == Some(1u32),
    ensures
        ({
            let s1 = spec_set_state(s, spec_toggle_target(s), cfg);
            let s2 = spec_set_state(s1, spec_toggle_target(s1), cfg);
            &&& spec_effective(s2.system_uses_light) == spec_effective(s.system_uses_light)
            &&& spec_read_theme(s2) == spec_read_theme(s)
        }),
{
}

/// After any successful switch, "AppsUseLightTheme" equals
/// "SystemUsesLightTheme", and both hold the target's value.
pub proof fn lemma_post_switch_invariant(
    s: PersonalizeValues,
    target: ThemeLabel,
    cfg: ServiceConfig,
)
    ensures
        spec_set_state(s, target, cfg).apps_use_light == spec_set_state(
            s,
            target,
            cfg,
        ).system_uses_light,
        spec_set_state(s, target, cfg).system_uses_light == Some(target.spec_dword()),
{
}

/// A toggle ends on the negation of the theme it read, and a read of the
/// state it leaves behind yields that label.
pub proof fn lemma_toggle_returns_negation(s: PersonalizeValues, cfg: ServiceConfig)
    ensures
        spec_theme_toggle(Some(s), cfg) matches Ok((ns, label)) ==> label == spec_read_theme(
            s,
        ).spec_flipped() && spec_read_theme(ns) == label,
{
}

/// With the accent-prevalence behavior enabled, a switch to light followed by
/// a switch back to dark restores "ColorPrevalence" to what it held before,
/// whenever it held a value before: the switch to light backs it up, the
/// switch to dark restores the backup.
pub proof fn lemma_accent_round_trip(s: PersonalizeValues, cfg: ServiceConfig)
    requires
        cfg.accent_backup,
        s.color_prevalence is Some,
    ensures
        spec_set_state(
            spec_set_state(s, ThemeLabel::Light, cfg),
            ThemeLabel::Dark,
            cfg,
        ).color_prevalence == s.color_prevalence,
{
}

} // verus!
