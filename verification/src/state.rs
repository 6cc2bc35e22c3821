//! The model of the registry state the switcher works on, and the verified
//! read, toggle and set logic over it.
//!
//! A call opens the personalization key, reads the values it needs, decides,
//! writes, and closes the key again; no handle outlives a call. The shell
//! around the library performs those registry calls and hands the observed
//! values in as a [`PersonalizeValues`]; a failed key open is handed in as
//! `None`. The decisions themselves — which label the stored values denote,
//! which values a switch must write — live here and are verified.

use vstd::prelude::*;

use vstd::string::StringSliceAdditionalSpecFns;

use crate::theme::{
    spec_label_of_dword, spec_parse_label, label_of_dword, parse_label, ThemeError, ThemeLabel,
};

verus! {

/// The values of interest under the personalization key, as observed at the
/// start of a call. `None` means the value is absent (or could not be read;
/// reads of single values are never fatal).
#[derive(Clone, Copy, Debug, PartialEq, Eq)]
pub struct PersonalizeValues {
    /// "SystemUsesLightTheme": 1 light, 0 dark.
    pub system_uses_light: Option<u32>,
    /// "AppsUseLightTheme": 1 light, 0 dark.
    pub apps_use_light: Option<u32>,
    /// "ColorPrevalence": whether the accent color is applied to surfaces.
    pub color_prevalence: Option<u32>,
    /// The backup of "ColorPrevalence" taken when switching to light.
    pub prevalence_backup: Option<u32>,
}

/// Which optional behaviors a switch performs. The behavior of the switcher
/// is otherwise fixed: both theme values are always written.
#[derive(Clone, Copy, Debug, PartialEq, Eq)]
pub struct ServiceConfig {
    /// Back up "ColorPrevalence" when switching to light and restore it when
    /// switching back to dark. Off by default.
    pub accent_backup: bool,
    /// Nudge the desktop compositor after a switch by transiently flipping
    /// its colorization color. Advisory only; on by default.
    pub dwm_refresh: bool,
}

impl Default for ServiceConfig {
    /// The default behavior set: no accent backup, compositor nudge on.
    fn default() -> (r: ServiceConfig)
        ensures
            !r.accent_backup,
            r.dwm_refresh,
    {
        ServiceConfig { accent_backup: false, dwm_refresh: true }
    }
}

/// The value a read of an optional theme DWORD yields: the stored value, or
/// 1 (light) where none is stored.
pub open spec fn spec_effective(v: Option<u32>) -> u32 {
    match v {
        Some(x) => x,
        None => 1,
    }
}

pub fn effective(v: Option<u32>) -> (r: u32)
    ensures
        r == spec_effective(v),
{
    match v {
        Some(x) => x,
        None => 1,
    }
}

/// The theme the stored state denotes: the label of the effective
/// "SystemUsesLightTheme" value.
pub open spec fn spec_read_theme(s: PersonalizeValues) -> ThemeLabel {
    spec_label_of_dword(spec_effective(s.system_uses_light))
}

/// What `get_theme` returns for each observation of the personalization key.
pub open spec fn spec_get_theme(opened: Option<PersonalizeValues>) -> Result<
    ThemeLabel,
    ThemeError,
> {
    match opened {
        None => Err(ThemeError::KeyOpenFailed),
        Some(s) => Ok(spec_read_theme(s)),
    }
}

/// Read the current theme. `opened` is what the shell observed: `None` when
/// the personalization key could not be opened (fatal, no default applies),
/// otherwise the values read from it (a missing "SystemUsesLightTheme"
/// defaults to 1, light). No side effects.
pub fn get_theme(opened: Option<PersonalizeValues>) -> (r: Result<ThemeLabel, ThemeError>)
    ensures
        r == spec_get_theme(opened),
        opened matches Some(s) ==> (r == Ok::<ThemeLabel, ThemeError>(ThemeLabel::Light)
            <==> spec_effective(s.system_uses_light) == 1),
{
    match opened {
        None => Err(ThemeError::KeyOpenFailed),
        Some(s) => Ok(label_of_dword(effective(s.system_uses_light))),
    }
}

/// The accent-prevalence step of a switch, when it is enabled.
///
/// Moving to light: if "ColorPrevalence" exists, back it up, and if it is
/// enabled (nonzero), disable it, so the accent color does not clash with the
/// light background. Moving to dark: if a backup exists, restore it; the
/// backup is consumed but not deleted.
pub open spec fn spec_accent_step(s: PersonalizeValues, target: ThemeLabel) -> PersonalizeValues {
    if target is Light {
        match s.color_prevalence {
            Some(p) => PersonalizeValues {
                prevalence_backup: Some(p),
                color_prevalence: if p != 0 {
                    Some(0u32)
                } else {
                    Some(p)
                },
                ..s
            },
            None => s,
        }
    } else {
        match s.prevalence_backup {
            Some(b) => PersonalizeValues { color_prevalence: Some(b), ..s },
            None => s,
        }
    }
}

/// The state a successful switch to `target` leaves behind: the accent step
/// where it is enabled, then both theme values set to the target's DWORD.
pub open spec fn spec_set_state(
    s: PersonalizeValues,
    target: ThemeLabel,
    cfg: ServiceConfig,
) -> PersonalizeValues {
    let mid = if cfg.accent_backup {
        spec_accent_step(s, target)
    } else {
        s
    };
    PersonalizeValues {
        system_uses_light: Some(target.spec_dword()),
        apps_use_light: Some(target.spec_dword()),
        ..mid
    }
}

/// The label a toggle switches to: the negation of the current theme.
pub open spec fn spec_toggle_target(s: PersonalizeValues) -> ThemeLabel {
    spec_read_theme(s).spec_flipped()
}

/// What `theme_toggle` returns for each observation of the personalization
/// key.
pub open spec fn spec_theme_toggle(opened: Option<PersonalizeValues>, cfg: ServiceConfig) -> Result<
    (PersonalizeValues, ThemeLabel),
    ThemeError,
> {
    match opened {
        None => Err(ThemeError::KeyOpenFailed),
        Some(s) => Ok((spec_set_state(s, spec_toggle_target(s), cfg), spec_toggle_target(s))),
    }
}

/// Switch to the named theme. Returns the state the switch leaves behind —
/// which the shell must write back, see [`set_write_plan`] — and the label it
/// ends on.
pub fn set_theme_to(opened: Option<PersonalizeValues>, target: ThemeLabel, cfg: ServiceConfig) -> (r:
    Result<(PersonalizeValues, ThemeLabel), ThemeError>)
    ensures
        opened is None ==> r == Err::<(PersonalizeValues, ThemeLabel), ThemeError>(
            ThemeError::KeyOpenFailed,
        ),
        opened matches Some(s) ==> r == Ok::<(PersonalizeValues, ThemeLabel), ThemeError>(
            (spec_set_state(s, target, cfg), target),
        ),
        r matches Ok((ns, _)) ==> ns.apps_use_light == ns.system_uses_light,
{
    match opened {
        None => Err(ThemeError::KeyOpenFailed),
        Some(s) => {
            let mid: PersonalizeValues = if cfg.accent_backup {
                accent_step(s, target)
            } else {
                s
            };
            let nv: u32 = target.dword();
            let ns = PersonalizeValues {
                system_uses_light: Some(nv),
                apps_use_light: Some(nv),
                ..mid
            };
            Ok((ns, target))
        },
    }
}

fn accent_step(s: PersonalizeValues, target: ThemeLabel) -> (r: PersonalizeValues)
    ensures
        r == spec_accent_step(s, target),
{
    match target {
        ThemeLabel::Light => {
            match s.color_prevalence {
                Some(p) => PersonalizeValues {
                    prevalence_backup: Some(p),
                    color_prevalence: if p != 0 {
                        Some(0u32)
                    } else {
                        Some(p)
                    },
                    ..s
                },
                None => s,
            }
        },
        ThemeLabel::Dark => {
            match s.prevalence_backup {
                Some(b) => PersonalizeValues { color_prevalence: Some(b), ..s },
                None => s,
            }
        },
    }
}

/// Toggle the theme: switch to the negation of the current one. Returns the
/// state to write back and the label the switch ends on.
pub fn theme_toggle(opened: Option<PersonalizeValues>, cfg: ServiceConfig) -> (r: Result<
    (PersonalizeValues, ThemeLabel),
    ThemeError,
>)
    ensures
        r == spec_theme_toggle(opened, cfg),
        r matches Ok((ns, _)) ==> ns.apps_use_light == ns.system_uses_light,
{
    match opened {
        None => Err(ThemeError::KeyOpenFailed),
        Some(s) => {
            let target = label_of_dword(effective(s.system_uses_light)).flipped();
            set_theme_to(Some(s), target, cfg)
        },
    }
}

/// What `set_theme` returns for each requested label and each observation of
/// the personalization key. An invalid label is rejected before the key is
/// looked at.
pub open spec fn spec_set_theme(
    opened: Option<PersonalizeValues>,
    label_bytes: Seq<u8>,
    cfg: ServiceConfig,
) -> Result<(PersonalizeValues, ThemeLabel), ThemeError> {
    match spec_parse_label(label_bytes) {
        Err(e) => Err(e),
        Ok(target) => match opened {
            None => Err(ThemeError::KeyOpenFailed),
            Some(s) => Ok((spec_set_state(s, target, cfg), target)),
        },
    }
}

/// Switch to the theme the given label names, "light" or "dark" in any ASCII
/// case. Any other label fails with the invalid-input error before the
/// observed state is looked at, so nothing is written for it.
pub fn set_theme(opened: Option<PersonalizeValues>, label: &str, cfg: ServiceConfig) -> (r: Result<
    (PersonalizeValues, ThemeLabel),
    ThemeError,
>)
    ensures
        r == spec_set_theme(opened, label.spec_bytes(), cfg),
        spec_parse_label(label.spec_bytes()) is Err ==> r == Err::<
            (PersonalizeValues, ThemeLabel),
            ThemeError,
        >(ThemeError::InvalidInput),
        r matches Ok((ns, _)) ==> ns.apps_use_light == ns.system_uses_light,
{
    match parse_label(label) {
        Err(e) => Err(e),
        Ok(target) => set_theme_to(opened, target, cfg),
    }
}

/// The registry values under the personalization key that a switch may write.
#[derive(Clone, Copy, Debug, PartialEq, Eq, Structural)]
pub enum RegValueName {
    SystemUsesLightTheme,
    AppsUseLightTheme,
    ColorPrevalence,
    PrevalenceBackup,
}

impl RegValueName {
    /// The name of the value in the registry.
    pub open spec fn spec_reg_name(self) -> Seq<char> {
        match self {
            RegValueName::SystemUsesLightTheme => "SystemUsesLightTheme"@,
            RegValueName::AppsUseLightTheme => "AppsUseLightTheme"@,
            RegValueName::ColorPrevalence => "ColorPrevalence"@,
            RegValueName::PrevalenceBackup => "ColorPrevalenceBackup"@,
        }
    }

    pub fn reg_name(self) -> (r: &'static str)
        ensures
            r@ == self.spec_reg_name(),
    {
        match self {
            RegValueName::SystemUsesLightTheme => "SystemUsesLightTheme",
            RegValueName::AppsUseLightTheme => "AppsUseLightTheme",
            RegValueName::ColorPrevalence => "ColorPrevalence",
            RegValueName::PrevalenceBackup => "ColorPrevalenceBackup",
        }
    }
}

/// One registry write: set the named DWORD value.
#[derive(Clone, Copy, Debug, PartialEq, Eq, Structural)]
pub struct RegWrite {
    pub name: RegValueName,
    pub data: u32,
}

/// The state after one write.
pub open spec fn spec_apply_write(s: PersonalizeValues, w: RegWrite) -> PersonalizeValues {
    match w.name {
        RegValueName::SystemUsesLightTheme => PersonalizeValues {
            system_uses_light: Some(w.data),
            ..s
        },
        RegValueName::AppsUseLightTheme => PersonalizeValues { apps_use_light: Some(w.data), ..s },
        RegValueName::ColorPrevalence => PersonalizeValues { color_prevalence: Some(w.data), ..s },
        RegValueName::PrevalenceBackup => PersonalizeValues { prevalence_backup: Some(w.data), ..s },
    }
}

/// The state after a sequence of writes, applied in order.
pub open spec fn spec_apply_writes(s: PersonalizeValues, ws: Seq<RegWrite>) -> PersonalizeValues
    decreases ws.len(),
{
    if ws.len() == 0 {
        s
    } else {
        spec_apply_write(spec_apply_writes(s, ws.drop_last()), ws.last())
    }
}

pub fn apply_write(s: PersonalizeValues, w: RegWrite) -> (r: PersonalizeValues)
    ensures
        r == spec_apply_write(s, w),
{
    match w.name {
        RegValueName::SystemUsesLightTheme => PersonalizeValues {
            system_uses_light: Some(w.data),
            ..s
        },
        RegValueName::AppsUseLightTheme => PersonalizeValues { apps_use_light: Some(w.data), ..s },
        RegValueName::ColorPrevalence => PersonalizeValues { color_prevalence: Some(w.data), ..s },
        RegValueName::PrevalenceBackup => PersonalizeValues { prevalence_backup: Some(w.data), ..s },
    }
}

/// Appending one write to a plan applies it after the rest.
pub proof fn lemma_apply_push(s: PersonalizeValues, ws: Seq<RegWrite>, w: RegWrite)
    ensures
        spec_apply_writes(s, ws.push(w)) == spec_apply_write(spec_apply_writes(s, ws), w),
{
    assert(ws.push(w).drop_last() =~= ws);
    assert(ws.push(w).last() == w);
}

/// Replay a write plan on an observed state.
pub fn apply_writes(s: PersonalizeValues, ws: &Vec<RegWrite>) -> (r: PersonalizeValues)
    ensures
        r == spec_apply_writes(s, ws@),
{
    let mut r = s;
    let mut i: usize = 0;
    while i < ws.len()
        invariant
            i <= ws.len(),
            r == spec_apply_writes(s, ws@.take(i as int)),
        decreases ws.len() - i,
    {
        proof {
            assert(ws@.take(i + 1).drop_last() =~= ws@.take(i as int));
            assert(ws@.take(i + 1).last() == ws@[i as int]);
        }
        r = apply_write(r, ws[i]);
        i = i + 1;
    }
    proof {
        assert(ws@.take(ws@.len() as int) =~= ws@);
    }
    r
}

/// The writes a switch to `target` performs, in order: the accent-prevalence
/// writes where that behavior is enabled, then "SystemUsesLightTheme" and
/// "AppsUseLightTheme". Replaying the plan on the observed state yields
/// exactly the state the switch leaves behind.
pub fn set_write_plan(s: PersonalizeValues, target: ThemeLabel, cfg: ServiceConfig) -> (plan: Vec<
    RegWrite,
>)
    ensures
        spec_apply_writes(s, plan@) == spec_set_state(s, target, cfg),
        plan@.len() >= 2,
        plan@[plan@.len() - 2] == (RegWrite {
            name: RegValueName::SystemUsesLightTheme,
            data: target.spec_dword(),
        }),
        plan@[plan@.len() - 1] == (RegWrite {
            name: RegValueName::AppsUseLightTheme,
            data: target.spec_dword(),
        }),
{
    let mut plan: Vec<RegWrite> = Vec::new();
    if cfg.accent_backup {
        match target {
            ThemeLabel::Light => {
                if let Some(p) = s.color_prevalence {
                    let ghost before = plan@;
                    plan.push(RegWrite { name: RegValueName::PrevalenceBackup, data: p });
                    proof {
                        lemma_apply_push(
                            s,
                            before,
                            RegWrite { name: RegValueName::PrevalenceBackup, data: p },
                        );
                    }
                    if p != 0 {
                        let ghost before = plan@;
                        plan.push(RegWrite { name: RegValueName::ColorPrevalence, data: 0 });
                        proof {
                            lemma_apply_push(
                                s,
                                before,
                                RegWrite { name: RegValueName::ColorPrevalence, data: 0 },
                            );
                        }
                    }
                }
            },
            ThemeLabel::Dark => {
                if let Some(b) = s.prevalence_backup {
                    let ghost before = plan@;
                    plan.push(RegWrite { name: RegValueName::ColorPrevalence, data: b });
                    proof {
                        lemma_apply_push(
                            s,
                            before,
                            RegWrite { name: RegValueName::ColorPrevalence, data: b },
                        );
                    }
                }
            },
        }
    }
    let ghost mid: PersonalizeValues = if cfg.accent_backup {
        spec_accent_step(s, target)
    } else {
        s
    };
    proof {
        assert(spec_apply_writes(s, plan@) == mid);
    }
    let nv: u32 = target.dword();
    let ghost before_sys = plan@;
    plan.push(RegWrite { name: RegValueName::SystemUsesLightTheme, data: nv });
    proof {
        lemma_apply_push(
            s,
            before_sys,
            RegWrite { name: RegValueName::SystemUsesLightTheme, data: nv },
        );
    }
    let ghost before_apps = plan@;
    plan.push(RegWrite { name: RegValueName::AppsUseLightTheme, data: nv });
    proof {
        lemma_apply_push(
            s,
            before_apps,
            RegWrite { name: RegValueName::AppsUseLightTheme, data: nv },
        );
    }
    plan
}

/// The writes a toggle performs: those of a switch to the negation of the
/// current theme.
pub fn toggle_write_plan(s: PersonalizeValues, cfg: ServiceConfig) -> (plan: Vec<RegWrite>)
    ensures
        spec_apply_writes(s, plan@) == spec_set_state(s, spec_toggle_target(s), cfg),
        plan@.len() >= 2,
{
    let target = label_of_dword(effective(s.system_uses_light)).flipped();
    set_write_plan(s, target, cfg)
}

} // verus!
