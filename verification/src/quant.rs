//! The color quantizer: a learned color-quantization network from the
//! `color_quant` crate, held behind trusted declarations.
//!
//! Training and classification are pure computations: for a fixed sample
//! factor, palette size and pixel buffer, the crate's training loop and its
//! nearest-entry search read nothing but their arguments, so their results
//! are named as functions of those arguments alone.

use vstd::prelude::*;

verus! {

#[verifier::external_type_specification]
#[verifier::external_body]
pub struct ExNeuQuant(color_quant::NeuQuant);

/// What a trained network holds: the RGBA color map that
/// `NeuQuant::color_map_rgba` reads out, four bytes per palette entry.
pub uninterp spec fn nq_colormap(nq: color_quant::NeuQuant) -> Seq<u8>;

/// The palette index that a trained network assigns to one RGBA pixel,
/// as `NeuQuant::index_of` computes it.
pub uninterp spec fn nq_index(nq: color_quant::NeuQuant, r: u8, g: u8, b: u8, a: u8) -> int;

/// The color map that training on the given sample factor, palette size and
/// pixel buffer produces; `NeuQuant::new` computes it from these arguments
/// alone.
pub uninterp spec fn trained_colormap(samplefac: int, colors: int, pixels: Seq<u8>) -> Seq<u8>;

/// The palette index that a network trained on the given arguments assigns
/// to one RGBA pixel; `NeuQuant::new` and `NeuQuant::index_of` compute it
/// from these arguments alone.
pub uninterp spec fn trained_index(
    samplefac: int,
    colors: int,
    pixels: Seq<u8>,
    r: u8,
    g: u8,
    b: u8,
    a: u8,
) -> int;

/// Relies on `color_quant::NeuQuant::new`: trains a network of `colors`
/// entries on the pixel buffer. The sample factor must lie in `[1, 30]`
/// (division by it) and `colors` must be at least 1 (the color map sort
/// reads the last entry). The color map it builds has exactly four bytes
/// per entry, and every classification lands inside it.
#[verifier::external_body]
pub(crate) fn nq_new(samplefac: i32, colors: usize, pixels: &Vec<u8>) -> (nq:
    color_quant::NeuQuant)
    requires
        1 <= samplefac <= 30,
        1 <= colors <= 256,
    ensures
        nq_colormap(nq) == trained_colormap(samplefac as int, colors as int, pixels@),
        nq_colormap(nq).len() == 4 * colors,
        forall|r: u8, g: u8, b: u8, a: u8|
            #[trigger] nq_index(nq, r, g, b, a) == trained_index(
                samplefac as int,
                colors as int,
                pixels@,
                r,
                g,
                b,
                a,
            ),
        forall|r: u8, g: u8, b: u8, a: u8| 0 <= #[trigger] nq_index(nq, r, g, b, a) < colors,
{
    color_quant::NeuQuant::new(samplefac, colors, pixels)
}

/// Relies on `color_quant::NeuQuant::color_map_rgba`: reads out the trained
/// color map, four bytes (R, G, B, A) per palette entry, in index order.
#[verifier::external_body]
pub(crate) fn nq_color_map_rgba(nq: &color_quant::NeuQuant) -> (v: Vec<u8>)
    ensures
        v@ == nq_colormap(*nq),
{
    nq.color_map_rgba()
}

/// Relies on `color_quant::NeuQuant::index_of`: finds the index of the
/// best-matching color map entry for one RGBA pixel. The network must hold
/// at least one entry (its index search reads the color map).
#[verifier::external_body]
pub(crate) fn nq_index_of(nq: &color_quant::NeuQuant, r: u8, g: u8, b: u8, a: u8) -> (i: usize)
    requires
        nq_colormap(*nq).len() >= 4,
    ensures
        i as int == nq_index(*nq, r, g, b, a),
{
    nq.index_of(&[r, g, b, a])
}

} // verus!
