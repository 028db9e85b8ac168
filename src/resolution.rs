//! The nine canonical resolution tiers.
use crate::error::AppError;
use vstd::prelude::*;

verus! {

/// A resolution tier, from the lowest to the highest.
#[derive(Clone, Copy, Debug, PartialEq, Eq, Structural, Hash)]
pub enum Resolution {
    P144,
    P240,
    P360,
    P480,
    P720,
    P1080,
    P1440,
    P2160,
    P4320,
}

/// The tier named by a pixel count, if it is one of the nine canonical values.
pub open spec fn tier_of(v: u16) -> Option<Resolution> {
    if v == 144 {
        Some(Resolution::P144)
    } else if v == 240 {
        Some(Resolution::P240)
    } else if v == 360 {
        Some(Resolution::P360)
    } else if v == 480 {
        Some(Resolution::P480)
    } else if v == 720 {
        Some(Resolution::P720)
    } else if v == 1080 {
        Some(Resolution::P1080)
    } else if v == 1440 {
        Some(Resolution::P1440)
    } else if v == 2160 {
        Some(Resolution::P2160)
    } else if v == 4320 {
        Some(Resolution::P4320)
    } else {
        None
    }
}

/// The tier of a (width, height) pair: the highest tier that either dimension
/// names exactly, if any does.
pub open spec fn resolution_of(width: u16, height: u16) -> Option<Resolution> {
    match (tier_of(width), tier_of(height)) {
        (Some(a), Some(b)) => if a.rank() >= b.rank() {
            Some(a)
        } else {
            Some(b)
        },
        (Some(a), None) => Some(a),
        (None, b) => b,
    }
}

impl Resolution {
    /// Position of the tier: 144p is 0, 4320p is 8.
    pub open spec fn rank(self) -> nat {
        match self {
            Resolution::P144 => 0,
            Resolution::P240 => 1,
            Resolution::P360 => 2,
            Resolution::P480 => 3,
            Resolution::P720 => 4,
            Resolution::P1080 => 5,
            Resolution::P1440 => 6,
            Resolution::P2160 => 7,
            Resolution::P4320 => 8,
        }
    }

    /// The tier's position, as in `rank`.
    pub fn index(&self) -> (r: usize)
        ensures
            r as nat == self.rank(),
            r < 9,
    {
        match self {
            Resolution::P144 => 0,
            Resolution::P240 => 1,
            Resolution::P360 => 2,
            Resolution::P480 => 3,
            Resolution::P720 => 4,
            Resolution::P1080 => 5,
            Resolution::P1440 => 6,
            Resolution::P2160 => 7,
            Resolution::P4320 => 8,
        }
    }

    /// Classifies a (width, height) pair; fails when neither dimension is a
    /// canonical tier value.
    pub fn try_new(width: u16, height: u16) -> (r: Result<Resolution, AppError>)
        ensures
            match r {
                Ok(res) => resolution_of(width, height) == Some(res),
                Err(e) => resolution_of(width, height) is None && e == AppError::InvalidResolution(
                    width,
                    height,
                ),
            },
    {
        if width == 4320 || height == 4320 {
            Ok(Resolution::P4320)
        } else if width == 2160 || height == 2160 {
            Ok(Resolution::P2160)
        } else if width == 1440 || height == 1440 {
            Ok(Resolution::P1440)
        } else if width == 1080 || height == 1080 {
            Ok(Resolution::P1080)
        } else if width == 720 || height == 720 {
            Ok(Resolution::P720)
        } else if width == 480 || height == 480 {
            Ok(Resolution::P480)
        } else if width == 360 || height == 360 {
            Ok(Resolution::P360)
        } else if width == 240 || height == 240 {
            Ok(Resolution::P240)
        } else if width == 144 || height == 144 {
            Ok(Resolution::P144)
        } else {
            Err(AppError::InvalidResolution(width, height))
        }
    }

    /// The tier's name, such as `1080p`.
    pub fn label(&self) -> (r: String)
        ensures
            r@ == resolution_label(*self),
    {
        proof {
            reveal_strlit("144p");
            reveal_strlit("240p");
            reveal_strlit("360p");
            reveal_strlit("480p");
            reveal_strlit("720p");
            reveal_strlit("1080p");
            reveal_strlit("1440p");
            reveal_strlit("2160p");
            reveal_strlit("4320p");
        }
        match self {
            Resolution::P144 => "144p".to_string(),
            Resolution::P240 => "240p".to_string(),
            Resolution::P360 => "360p".to_string(),
            Resolution::P480 => "480p".to_string(),
            Resolution::P720 => "720p".to_string(),
            Resolution::P1080 => "1080p".to_string(),
            Resolution::P1440 => "1440p".to_string(),
            Resolution::P2160 => "2160p".to_string(),
            Resolution::P4320 => "4320p".to_string(),
        }
    }
}

/// The name of each tier.
pub open spec fn resolution_label(r: Resolution) -> Seq<char> {
    match r {
        Resolution::P144 => "144p"@,
        Resolution::P240 => "240p"@,
        Resolution::P360 => "360p"@,
        Resolution::P480 => "480p"@,
        Resolution::P720 => "720p"@,
        Resolution::P1080 => "1080p"@,
        Resolution::P1440 => "1440p"@,
        Resolution::P2160 => "2160p"@,
        Resolution::P4320 => "4320p"@,
    }
}

} // verus!
