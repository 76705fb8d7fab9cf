//! Ready-made starting points for a theme.
use vstd::prelude::*;
use crate::dynamiccolor::platform::Platform;
use crate::dynamiccolor::spec_version::SpecVersion;
use crate::dynamiccolor::variant::Variant;

verus! {

/// The seed colour of the baseline theme.
pub const BASELINE_SOURCE: u32 = 0xff6750a4;

/// What a template fixes of a theme before the user chooses the rest:
/// `None` leaves the choice open.
pub trait Template {
    /// The seed colour.
    fn source_color(&self) -> Option<u32>;

    /// The aesthetic preset.
    fn variant(&self) -> Option<Variant>;

    /// The kind of device.
    fn platform(&self) -> Option<Platform>;

    /// The version of the rules.
    fn spec_version(&self) -> Option<SpecVersion>;

    /// The colour that the primary palette is made from.
    fn primary_palette_key_color(&self) -> Option<u32>;

    /// The colour that the secondary palette is made from.
    fn secondary_palette_key_color(&self) -> Option<u32>;

    /// The colour that the tertiary palette is made from.
    fn tertiary_palette_key_color(&self) -> Option<u32>;

    /// The colour that the neutral palette is made from.
    fn neutral_palette_key_color(&self) -> Option<u32>;

    /// The colour that the neutral variant palette is made from.
    fn neutral_variant_palette_key_color(&self) -> Option<u32>;

    /// The colour that the error palette is made from.
    fn error_palette_key_color(&self) -> Option<u32>;
}

/// The template that fixes the baseline seed, a tonal-spot scheme for
/// phones under the rules of 2021, and no palette.
#[derive(Clone, Copy, Debug, PartialEq, Eq, Hash, Structural)]
pub struct EmptyTemplate {}

impl Template for EmptyTemplate {
    fn source_color(&self) -> (out: Option<u32>)
        ensures
            out == Some(BASELINE_SOURCE),
    {
        Some(BASELINE_SOURCE)
    }

    fn variant(&self) -> (out: Option<Variant>)
        ensures
            out == Some(Variant::TonalSpot),
    {
        Some(Variant::TonalSpot)
    }

    fn platform(&self) -> (out: Option<Platform>)
        ensures
            out == Some(Platform::Phone),
    {
        Some(Platform::Phone)
    }

    fn spec_version(&self) -> (out: Option<SpecVersion>)
        ensures
            out == Some(SpecVersion::Spec2021),
    {
        Some(SpecVersion::Spec2021)
    }

    fn primary_palette_key_color(&self) -> (out: Option<u32>)
        ensures
            out.is_none(),
    {
        None
    }

    fn secondary_palette_key_color(&self) -> (out: Option<u32>)
        ensures
            out.is_none(),
    {
        None
    }

    fn tertiary_palette_key_color(&self) -> (out: Option<u32>)
        ensures
            out.is_none(),
    {
        None
    }

    fn neutral_palette_key_color(&self) -> (out: Option<u32>)
        ensures
            out.is_none(),
    {
        None
    }

    fn neutral_variant_palette_key_color(&self) -> (out: Option<u32>)
        ensures
            out.is_none(),
    {
        None
    }

    fn error_palette_key_color(&self) -> (out: Option<u32>)
        ensures
            out.is_none(),
    {
        None
    }
}

/// The templates that come with the library.
#[derive(Clone, Copy, Debug, PartialEq, Eq, Hash, Structural)]
pub enum DefaultTemplate {
    /// The baseline theme of Material Design.
    Baseline,
    /// The theme of the Now in Android app.
    NowInAndroid,
}

impl DefaultTemplate {
    /// The seed colour of a template.
    pub open spec fn seed(self) -> u32 {
        match self {
            DefaultTemplate::Baseline => BASELINE_SOURCE,
            DefaultTemplate::NowInAndroid => 0xff8c4190,
        }
    }
}

impl Template for DefaultTemplate {
    fn source_color(&self) -> (out: Option<u32>)
        ensures
            out == Some(self.seed()),
    {
        match self {
            DefaultTemplate::Baseline => Some(BASELINE_SOURCE),
            DefaultTemplate::NowInAndroid => Some(0xff8c4190),
        }
    }

    fn variant(&self) -> (out: Option<Variant>)
        ensures
            out == Some(Variant::TonalSpot),
    {
        Some(Variant::TonalSpot)
    }

    fn platform(&self) -> (out: Option<Platform>)
        ensures
            out == Some(Platform::Phone),
    {
        Some(Platform::Phone)
    }

    fn spec_version(&self) -> (out: Option<SpecVersion>)
        ensures
            out == Some(SpecVersion::Spec2021),
    {
        Some(SpecVersion::Spec2021)
    }

    fn primary_palette_key_color(&self) -> (out: Option<u32>)
        ensures
            out == (if *self == DefaultTemplate::NowInAndroid {
                Some(0xff8c4190u32)
            } else {
                None
            }),
    {
        match self {
            DefaultTemplate::NowInAndroid => Some(0xff8c4190),
            DefaultTemplate::Baseline => None,
        }
    }

    fn secondary_palette_key_color(&self) -> (out: Option<u32>)
        ensures
            out == (if *self == DefaultTemplate::NowInAndroid {
                Some(0xffff8456u32)
            } else {
                None
            }),
    {
        match self {
            DefaultTemplate::NowInAndroid => Some(0xffff8456),
            DefaultTemplate::Baseline => None,
        }
    }

    fn tertiary_palette_key_color(&self) -> (out: Option<u32>)
        ensures
            out == (if *self == DefaultTemplate::NowInAndroid {
                Some(0xffb3e9ffu32)
            } else {
                None
            }),
    {
        match self {
            DefaultTemplate::NowInAndroid => Some(0xffb3e9ff),
            DefaultTemplate::Baseline => None,
        }
    }

    fn neutral_palette_key_color(&self) -> (out: Option<u32>)
        ensures
            out == (if *self == DefaultTemplate::NowInAndroid {
                Some(0xff201a1bu32)
            } else {
                None
            }),
    {
        match self {
            DefaultTemplate::NowInAndroid => Some(0xff201a1b),
            DefaultTemplate::Baseline => None,
        }
    }

    fn neutral_variant_palette_key_color(&self) -> (out: Option<u32>)
        ensures
            out.is_none(),
    {
        None
    }

    fn error_palette_key_color(&self) -> (out: Option<u32>)
        ensures
            out.is_none(),
    {
        None
    }
}

} // verus!
