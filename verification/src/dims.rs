//! Dimension resolution: computes the target width and height of the output
//! grid from the configuration and the source image dimensions.

use vstd::prelude::*;
use crate::config::{Config, config_wf};

verus! {

/// `a / b` rounded to the nearest integer (half rounds up), for `b >= 1`.
pub open spec fn round_div(a: int, b: int) -> int
    recommends
        b >= 1,
{
    (a + b / 2) / b
}

/// Clamps a computed dimension to the representable range: at least 1
/// (degenerate aspect ratios must not round to zero), at most `u32::MAX`.
pub open spec fn clamp_dim(v: int) -> int {
    if v < 1 {
        1
    } else if v > u32::MAX as int {
        u32::MAX as int
    } else {
        v
    }
}

/// The resolved target dimensions `(width, height)`, by the precedence order:
/// both given; width only; height only; scale only; none (default width 32).
/// Each resolved dimension is clamped to a minimum of 1.
pub open spec fn resolved_dims(cfg: Config, ow: int, oh: int) -> (int, int)
    recommends
        ow >= 1,
        oh >= 1,
        config_wf(cfg),
{
    if cfg.width is Some && cfg.height is Some {
        (clamp_dim(cfg.width->0 as int), clamp_dim(cfg.height->0 as int))
    } else if cfg.width is Some {
        let w = cfg.width->0 as int;
        (clamp_dim(w), clamp_dim(round_div(oh * w, ow)))
    } else if cfg.height is Some {
        let h = cfg.height->0 as int;
        (clamp_dim(round_div(ow * h, oh)), clamp_dim(h))
    } else if cfg.scale is Some {
        let s = cfg.scale->0;
        (
            clamp_dim(round_div(ow * s.num as int, s.den as int)),
            clamp_dim(round_div(oh * s.num as int, s.den as int)),
        )
    } else {
        (32, clamp_dim(round_div(oh * 32, ow)))
    }
}

/// `round(a * num / den)` clamped to `[1, u32::MAX]`, in exact integer
/// arithmetic.
fn scale_round(a: u32, num: u32, den: u32) -> (r: u32)
    requires
        den >= 1,
    ensures
        r as int == clamp_dim(round_div(a as int * num as int, den as int)),
{
    assert(a as int * num as int + u32::MAX as int <= u64::MAX) by (nonlinear_arith)
        requires
            a <= u32::MAX,
            num <= u32::MAX,
    ;
    let prod: u64 = (a as u64) * (num as u64);
    let half: u64 = (den as u64) / 2;
    let q: u64 = (prod + half) / (den as u64);
    if q < 1 {
        1
    } else if q > (u32::MAX as u64) {
        u32::MAX
    } else {
        q as u32
    }
}

/// Clamps a directly given dimension to a minimum of 1.
fn at_least_one(v: u32) -> (r: u32)
    ensures
        r as int == clamp_dim(v as int),
{
    if v < 1 {
        1
    } else {
        v
    }
}

/// Resolves the target output dimensions from the configuration and the
/// source dimensions, per the precedence order of `resolved_dims`.
pub fn resolve_dimensions(cfg: &Config, ow: u32, oh: u32) -> (r: (u32, u32))
    requires
        ow >= 1,
        oh >= 1,
        config_wf(*cfg),
    ensures
        (r.0 as int, r.1 as int) == resolved_dims(*cfg, ow as int, oh as int),
        r.0 >= 1,
        r.1 >= 1,
{
    match (cfg.width, cfg.height) {
        (Some(w), Some(h)) => (at_least_one(w), at_least_one(h)),
        (Some(w), None) => (at_least_one(w), scale_round(oh, w, ow)),
        (None, Some(h)) => (scale_round(ow, h, oh), at_least_one(h)),
        (None, None) => {
            match &cfg.scale {
                Some(s) => (scale_round(ow, s.num, s.den), scale_round(oh, s.num, s.den)),
                None => (32, scale_round(oh, 32, ow)),
            }
        },
    }
}

} // verus!

verus! {

/// Law: both resolved dimensions are at least 1, whatever the
/// configuration and source dimensions.
pub proof fn lemma_resolved_pos(cfg: Config, ow: int, oh: int)
    ensures
        resolved_dims(cfg, ow, oh).0 >= 1,
        resolved_dims(cfg, ow, oh).1 >= 1,
{
}

} // verus!
