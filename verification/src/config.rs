//! The integral parts of a render configuration: output resolution and the enumerations
//! that callers pass as numbers.
use vstd::prelude::*;

use crate::decimal::{decimal_signed, i64_to_decimal};
use crate::validation::ValidationError;

verus! {

#[derive(Debug, Clone, Copy, PartialEq, Eq, Structural)]
pub struct Resolution {
    pub width: u32,
    pub height: u32,
}

#[derive(Debug, Clone, Copy, PartialEq, Eq, Structural)]
pub enum ChallengeColor {
    White,
    Green,
    Blue,
    Red,
    Golden,
    Rainbow,
}

impl ChallengeColor {
    /// The colour that a number stands for, if any.
    pub open spec fn spec_from_raw(value: i32) -> Option<ChallengeColor> {
        if value == 0 {
            Some(ChallengeColor::White)
        } else if value == 1 {
            Some(ChallengeColor::Green)
        } else if value == 2 {
            Some(ChallengeColor::Blue)
        } else if value == 3 {
            Some(ChallengeColor::Red)
        } else if value == 4 {
            Some(ChallengeColor::Golden)
        } else if value == 5 {
            Some(ChallengeColor::Rainbow)
        } else {
            None
        }
    }
}

/// The refusal of a number that names no variant of the enumeration `field`.
pub open spec fn invalid_enum(r: ValidationError, field: &'static str, value: i32) -> bool {
    r matches ValidationError::InvalidEnum { field: f, value: text } && f == field && text@
        == decimal_signed(value as int)
}

impl TryFrom<i32> for ChallengeColor {
    type Error = ValidationError;

    fn try_from(value: i32) -> (r: Result<Self, Self::Error>)
        ensures
            match ChallengeColor::spec_from_raw(value) {
                Some(c) => r == Ok::<ChallengeColor, ValidationError>(c),
                None => r matches Err(e) && invalid_enum(e, "challenge_color", value),
            },
    {
        match value {
            0 => Ok(Self::White),
            1 => Ok(Self::Green),
            2 => Ok(Self::Blue),
            3 => Ok(Self::Red),
            4 => Ok(Self::Golden),
            5 => Ok(Self::Rainbow),
            _ => Err(
                ValidationError::InvalidEnum {
                    field: "challenge_color",
                    value: i64_to_decimal(value as i64),
                },
            ),
        }
    }
}

// `try_from` above states its whole contract itself; this impl only tells Verus that the
// generic `try_from_spec` is not used to describe it.
impl vstd::std_specs::convert::TryFromSpecImpl<i32> for ChallengeColor {
    open spec fn obeys_try_from_spec() -> bool {
        false
    }

    open spec fn try_from_spec(v: i32) -> Result<Self, Self::Error> {
        arbitrary()
    }
}

#[derive(Debug, Clone, Copy, PartialEq, Eq, Structural)]
pub enum AudioMixMode {
    Traditional,
    Optimized,
    Fft,
}

impl AudioMixMode {
    /// The mixing mode that a number stands for, if any.
    pub open spec fn spec_from_raw(value: i32) -> Option<AudioMixMode> {
        if value == 0 {
            Some(AudioMixMode::Traditional)
        } else if value == 1 {
            Some(AudioMixMode::Optimized)
        } else if value == 2 {
            Some(AudioMixMode::Fft)
        } else {
            None
        }
    }
}

impl TryFrom<i32> for AudioMixMode {
    type Error = ValidationError;

    fn try_from(value: i32) -> (r: Result<Self, Self::Error>)
        ensures
            match AudioMixMode::spec_from_raw(value) {
                Some(m) => r == Ok::<AudioMixMode, ValidationError>(m),
                None => r matches Err(e) && invalid_enum(e, "audio_mix_mode", value),
            },
    {
        match value {
            0 => Ok(Self::Traditional),
            1 => Ok(Self::Optimized),
            2 => Ok(Self::Fft),
            _ => Err(
                ValidationError::InvalidEnum {
                    field: "audio_mix_mode",
                    value: i64_to_decimal(value as i64),
                },
            ),
        }
    }
}

// As for `ChallengeColor`: the contract of `try_from` is stated on the impl itself.
impl vstd::std_specs::convert::TryFromSpecImpl<i32> for AudioMixMode {
    open spec fn obeys_try_from_spec() -> bool {
        false
    }

    open spec fn try_from_spec(v: i32) -> Result<Self, Self::Error> {
        arbitrary()
    }
}

/// What the output geometry must satisfy: a positive size, even on both sides (YUV 4:2:0
/// halves each side), and a positive frame rate.
pub open spec fn geometry_error(resolution: Resolution, fps: u32) -> Option<ValidationError> {
    if resolution.width == 0 || resolution.height == 0 {
        Some(ValidationError::NonPositive("resolution"))
    } else if resolution.width % 2 != 0 || resolution.height % 2 != 0 {
        Some(ValidationError::EvenResolution)
    } else if fps == 0 {
        Some(ValidationError::NonPositive("fps"))
    } else {
        None
    }
}

/// The first checks of a render configuration, on its resolution and frame rate, in the order
/// in which the configuration is checked.
pub fn validate_video_geometry(resolution: Resolution, fps: u32) -> (r: Result<(), ValidationError>)
    ensures
        match geometry_error(resolution, fps) {
            None => r is Ok,
            Some(e) => r == Err::<(), ValidationError>(e),
        },
{
    if resolution.width == 0 || resolution.height == 0 {
        return Err(ValidationError::NonPositive("resolution"));
    }
    if resolution.width % 2 != 0 || resolution.height % 2 != 0 {
        return Err(ValidationError::EvenResolution);
    }
    if fps == 0 {
        return Err(ValidationError::NonPositive("fps"));
    }
    Ok(())
}

/// The last check of a render configuration: at least one particle is allowed.
pub fn validate_max_particles(max_particles: u64) -> (r: Result<(), ValidationError>)
    ensures
        max_particles == 0 ==> r == Err::<(), ValidationError>(
            ValidationError::NonPositive("max_particles"),
        ),
        max_particles != 0 ==> r is Ok,
{
    if max_particles == 0 {
        return Err(ValidationError::NonPositive("max_particles"));
    }
    Ok(())
}

/// The enumeration numbers of the C interface name the variants in declaration order, from 0,
/// and no other number names one; each variant has one number, and the default numbers of
/// the interface name the default variants.
pub proof fn lemma_enum_numbers_in_declaration_order(value: i32, other: i32)
    ensures
        AudioMixMode::spec_from_raw(0) == Some(AudioMixMode::Traditional),
        AudioMixMode::spec_from_raw(1) == Some(AudioMixMode::Optimized),
        AudioMixMode::spec_from_raw(2) == Some(AudioMixMode::Fft),
        AudioMixMode::spec_from_raw(value) is Some <==> 0 <= value <= 2,
        AudioMixMode::spec_from_raw(value) is Some && AudioMixMode::spec_from_raw(value)
            == AudioMixMode::spec_from_raw(other) ==> value == other,
        AudioMixMode::spec_from_raw(crate::abi::PHI_AUDIO_MIX_MODE_OPTIMIZED) == Some(
            AudioMixMode::Optimized,
        ),
        ChallengeColor::spec_from_raw(0) == Some(ChallengeColor::White),
        ChallengeColor::spec_from_raw(1) == Some(ChallengeColor::Green),
        ChallengeColor::spec_from_raw(2) == Some(ChallengeColor::Blue),
        ChallengeColor::spec_from_raw(3) == Some(ChallengeColor::Red),
        ChallengeColor::spec_from_raw(4) == Some(ChallengeColor::Golden),
        ChallengeColor::spec_from_raw(5) == Some(ChallengeColor::Rainbow),
        ChallengeColor::spec_from_raw(value) is Some <==> 0 <= value <= 5,
        ChallengeColor::spec_from_raw(value) is Some && ChallengeColor::spec_from_raw(value)
            == ChallengeColor::spec_from_raw(other) ==> value == other,
        ChallengeColor::spec_from_raw(crate::abi::PHI_CHALLENGE_COLOR_RAINBOW) == Some(
            ChallengeColor::Rainbow,
        ),
{
}

} // verus!
