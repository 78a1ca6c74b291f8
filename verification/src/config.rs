//! The caller's configuration: optional target width and height in pixels,
//! an optional scale factor, and an optional maximum palette size.

use vstd::prelude::*;

verus! {

/// A positive rational scale factor, `num / den`.
///
/// The scale a caller supplies is a positive real; it is carried here as a
/// ratio of two integers so that the resolved dimensions are exact integer
/// arithmetic.
pub struct Scale {
    pub num: u32,
    pub den: u32,
}

/// The configuration of one invocation. All fields are optional and
/// independently nullable; at most one sizing strategy is applied, in the
/// precedence order of dimension resolution.
pub struct Config {
    pub width: Option<u32>,
    pub height: Option<u32>,
    pub scale: Option<Scale>,
    pub colors: Option<i32>,
}

/// A scale factor is well formed when it denotes a positive rational.
pub open spec fn scale_wf(s: Scale) -> bool {
    s.num >= 1 && s.den >= 1
}

/// A configuration is well formed when its scale, if present, is positive.
pub open spec fn config_wf(cfg: Config) -> bool {
    match cfg.scale {
        Some(s) => scale_wf(s),
        None => true,
    }
}

/// The palette size that a configuration asks for: 64 when absent,
/// otherwise the given value clamped to the range [2, 256].
pub open spec fn spec_colors(colors: Option<i32>) -> int {
    match colors {
        None => 64,
        Some(c) => if c < 2 {
            2
        } else if c > 256 {
            256
        } else {
            c as int
        },
    }
}

/// Resolves the configured maximum palette size, applying the default and
/// the clamp to [2, 256].
pub fn effective_colors(cfg: &Config) -> (r: usize)
    ensures
        r as int == spec_colors(cfg.colors),
        2 <= r <= 256,
{
    match cfg.colors {
        None => 64,
        Some(c) => {
            if c < 2 {
                2
            } else if c > 256 {
                256
            } else {
                c as usize
            }
        },
    }
}

} // verus!
