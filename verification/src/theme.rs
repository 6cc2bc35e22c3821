//! The theme domain: the two theme labels, their registry encoding, and the
//! errors a theme operation can report.

use vstd::prelude::*;
use vstd::string::StringSliceAdditionalSpecFns;

verus! {

/// The two UI themes. The registry stores them as a DWORD: 1 means light,
/// 0 means dark (the convention of "AppsUseLightTheme" and
/// "SystemUsesLightTheme").
#[derive(Clone, Copy, Debug, PartialEq, Eq, Structural)]
pub enum ThemeLabel {
    Light,
    Dark,
}

/// What a theme operation can fail with.
///
/// Registry reads of a single value are never fatal (a missing value falls
/// back to a default), so no variant exists for them. A broadcast failure is
/// advisory and never surfaced, so none exists for it either.
#[derive(Clone, Copy, Debug, PartialEq, Eq, Structural)]
pub enum ThemeError {
    /// The personalization key could not be opened (missing or access denied).
    KeyOpenFailed,
    /// A registry value could not be written after the key was opened.
    ValueWriteFailed,
    /// The requested theme label is neither "light" nor "dark".
    InvalidInput,
}

impl ThemeLabel {
    /// The DWORD stored in the registry for this label: 1 for light, 0 for dark.
    pub open spec fn spec_dword(self) -> u32 {
        if self is Light {
            1
        } else {
            0
        }
    }

    /// The opposite label.
    pub open spec fn spec_flipped(self) -> ThemeLabel {
        if self is Light {
            ThemeLabel::Dark
        } else {
            ThemeLabel::Light
        }
    }

    /// The label's name, as the callers of the switcher see it.
    pub open spec fn spec_str(self) -> Seq<char> {
        if self is Light {
            "light"@
        } else {
            "dark"@
        }
    }

    pub fn dword(self) -> (r: u32)
        ensures
            r == self.spec_dword(),
    {
        match self {
            ThemeLabel::Light => 1,
            ThemeLabel::Dark => 0,
        }
    }

    pub fn flipped(self) -> (r: ThemeLabel)
        ensures
            r == self.spec_flipped(),
    {
        match self {
            ThemeLabel::Light => ThemeLabel::Dark,
            ThemeLabel::Dark => ThemeLabel::Light,
        }
    }

    pub fn as_str(self) -> (r: &'static str)
        ensures
            r@ == self.spec_str(),
    {
        match self {
            ThemeLabel::Light => "light",
            ThemeLabel::Dark => "dark",
        }
    }
}

/// The label a stored DWORD denotes: 1 is light, anything else is dark.
pub open spec fn spec_label_of_dword(v: u32) -> ThemeLabel {
    if v == 1 {
        ThemeLabel::Light
    } else {
        ThemeLabel::Dark
    }
}

pub fn label_of_dword(v: u32) -> (r: ThemeLabel)
    ensures
        r == spec_label_of_dword(v),
{
    if v == 1 {
        ThemeLabel::Light
    } else {
        ThemeLabel::Dark
    }
}

/// One byte, with an ASCII capital letter lowered.
pub open spec fn spec_lower(b: u8) -> u8 {
    if 65 <= b && b <= 90 {
        (b + 32) as u8
    } else {
        b
    }
}

fn lower(b: u8) -> (r: u8)
    ensures
        r == spec_lower(b),
{
    if 65 <= b && b <= 90 {
        b + 32
    } else {
        b
    }
}

/// The bytes spell "light", in any mix of ASCII case.
pub open spec fn spec_is_light_label(bs: Seq<u8>) -> bool {
    &&& bs.len() == 5
    &&& spec_lower(bs[0]) == 108
    &&& spec_lower(bs[1]) == 105
    &&& spec_lower(bs[2]) == 103
    &&& spec_lower(bs[3]) == 104
    &&& spec_lower(bs[4]) == 116
}

/// The bytes spell "dark", in any mix of ASCII case.
pub open spec fn spec_is_dark_label(bs: Seq<u8>) -> bool {
    &&& bs.len() == 4
    &&& spec_lower(bs[0]) == 100
    &&& spec_lower(bs[1]) == 97
    &&& spec_lower(bs[2]) == 114
    &&& spec_lower(bs[3]) == 107
}

/// What parsing a requested theme label yields: the matching label for
/// "light" or "dark" in any ASCII case, the invalid-input error for anything
/// else.
pub open spec fn spec_parse_label(bs: Seq<u8>) -> Result<ThemeLabel, ThemeError> {
    if spec_is_light_label(bs) {
        Ok(ThemeLabel::Light)
    } else if spec_is_dark_label(bs) {
        Ok(ThemeLabel::Dark)
    } else {
        Err(ThemeError::InvalidInput)
    }
}

/// Parse a requested theme label, case-insensitively.
pub fn parse_label(s: &str) -> (r: Result<ThemeLabel, ThemeError>)
    ensures
        r == spec_parse_label(s.spec_bytes()),
{
    let bs: &[u8] = s.as_bytes();
    if bs.len() == 5 && lower(bs[0]) == 108 && lower(bs[1]) == 105 && lower(bs[2]) == 103
        && lower(bs[3]) == 104 && lower(bs[4]) == 116 {
        Ok(ThemeLabel::Light)
    } else if bs.len() == 4 && lower(bs[0]) == 100 && lower(bs[1]) == 97 && lower(bs[2]) == 114
        && lower(bs[3]) == 107 {
        Ok(ThemeLabel::Dark)
    } else {
        Err(ThemeError::InvalidInput)
    }
}

} // verus!
