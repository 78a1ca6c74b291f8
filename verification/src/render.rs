//! The full transform: resolve target dimensions, resize, learn the
//! palette, and assemble the character grid with its palette mapping.

use vstd::prelude::*;
use crate::config::{Config, config_wf, spec_colors, effective_colors};
use crate::dims::{resolved_dims, resolve_dimensions};
use crate::grid::{
    art_text, assemble_grid, cell_class, classes_of, palette_spec, palette_view,
};
use crate::image_io::{decoded, lanczos, decode_image, resize_lanczos};
use crate::quant::{trained_colormap, trained_index, nq_new, nq_index};

verus! {

/// The sample factor handed to the quantizer's training: every tenth pixel
/// of the sample is presented, a fixed compromise between speed and
/// quality.
pub const SAMPLE_FACTOR: i32 = 10;

/// Why a call produced no grid.
#[derive(Debug, PartialEq, Eq)]
pub enum RenderError {
    /// The image bytes could not be decoded.
    Decode,
    /// The decoded image has zero width or height.
    ZeroDimension,
}

/// A successful result: the newline-joined character grid, and the palette
/// as ordered entries of a character with its `#rrggbb` color (`None` only
/// for the reserved `.` entry).
#[derive(Debug)]
pub struct RenderOutput {
    pub art: String,
    pub palette: Vec<(char, Option<String>)>,
}

/// The classification of cell `k` of the resized buffer, as a function of
/// the configured palette size and the buffer alone.
pub open spec fn spec_cell_class(colors: int, rpix: Seq<u8>, k: int) -> Option<int> {
    if rpix[4 * k + 3] < 128 {
        None
    } else {
        Some(
            trained_index(
                SAMPLE_FACTOR as int,
                colors,
                rpix,
                rpix[4 * k],
                rpix[4 * k + 1],
                rpix[4 * k + 2],
                rpix[4 * k + 3],
            ),
        )
    }
}

/// The classification of every cell of the resized buffer.
pub open spec fn spec_classes(colors: int, rpix: Seq<u8>, n: int) -> Seq<Option<int>> {
    Seq::new(n as nat, |k: int| spec_cell_class(colors, rpix, k))
}

/// The rendering of a decoded `w` by `h` RGBA buffer under a
/// configuration: the grid text and the abstract palette, as a function of
/// the buffer and the configuration alone.
pub open spec fn render_spec(w: int, h: int, pixels: Seq<u8>, cfg: Config) -> (
    Seq<char>,
    Seq<(char, Option<Seq<char>>)>,
) {
    let dims = resolved_dims(cfg, w, h);
    let rpix = lanczos(w, h, pixels, dims.0, dims.1);
    let colors = spec_colors(cfg.colors);
    let cmap = trained_colormap(SAMPLE_FACTOR as int, colors, rpix);
    let classes = spec_classes(colors, rpix, dims.0 * dims.1);
    (art_text(classes, dims.0, dims.1), palette_spec(classes, dims.0 * dims.1, cmap))
}

/// What the whole transform yields for given image bytes and
/// configuration: an error exactly when the bytes do not decode or decode
/// to a zero dimension, and otherwise the rendered grid and palette.
pub open spec fn grid_spec(bytes: Seq<u8>, cfg: Config) -> Result<
    (Seq<char>, Seq<(char, Option<Seq<char>>)>),
    RenderError,
> {
    match decoded(bytes) {
        None => Err(RenderError::Decode),
        Some(d) => if d.0 == 0 || d.1 == 0 {
            Err(RenderError::ZeroDimension)
        } else {
            Ok(render_spec(d.0, d.1, d.2, cfg))
        },
    }
}

/// Renders an already decoded RGBA buffer: resolves the target dimensions,
/// resizes, trains the quantizer, and assembles the grid. Returns an error
/// exactly when the buffer has zero width or height.
pub fn render_rgba(w: u32, h: u32, pixels: &Vec<u8>, cfg: &Config) -> (r: Result<
    RenderOutput,
    RenderError,
>)
    requires
        config_wf(*cfg),
        pixels@.len() == 4 * (w as int) * (h as int),
    ensures
        match r {
            Ok(out) => w >= 1 && h >= 1 && out.art@ == render_spec(
                w as int,
                h as int,
                pixels@,
                *cfg,
            ).0 && palette_view(out.palette@) == render_spec(w as int, h as int, pixels@, *cfg).1,
            Err(e) => (w == 0 || h == 0) && e == RenderError::ZeroDimension,
        },
{
    if w == 0 || h == 0 {
        return Err(RenderError::ZeroDimension);
    }
    let (tw, th) = resolve_dimensions(cfg, w, h);
    proof {
        assert(4 * ((w as int) * (h as int)) == 4 * (w as int) * (h as int)) by (nonlinear_arith);
    }
    let rpix = resize_lanczos(w, h, pixels, tw, th);
    let ncolors = effective_colors(cfg);
    let nq = nq_new(SAMPLE_FACTOR, ncolors, &rpix);
    proof {
        let ghost n_int = tw as int * th as int;
        assert forall|k: int| 0 <= k < n_int implies cell_class(nq, rpix@, k) == spec_cell_class(
            ncolors as int,
            rpix@,
            k,
        ) by {
            if rpix@[4 * k + 3] >= 128 {
                assert(nq_index(nq, rpix@[4 * k], rpix@[4 * k + 1], rpix@[4 * k + 2], rpix@[4 * k
                    + 3]) == trained_index(
                    SAMPLE_FACTOR as int,
                    ncolors as int,
                    rpix@,
                    rpix@[4 * k],
                    rpix@[4 * k + 1],
                    rpix@[4 * k + 2],
                    rpix@[4 * k + 3],
                ));
            }
        }
        assert(classes_of(nq, rpix@, n_int) =~= spec_classes(ncolors as int, rpix@, n_int));
        assert(4 * ((tw as int) * (th as int)) == 4 * (tw as int) * (th as int))
            by (nonlinear_arith);
    }
    let (art, palette) = assemble_grid(tw, th, &rpix, &nq, ncolors);
    Ok(RenderOutput { art, palette })
}

/// Decodes the image bytes and renders the grid. Returns an error exactly
/// when the bytes do not decode as an image or decode to a zero width or
/// height.
pub fn rgba_to_grid(image_bytes: &[u8], cfg: &Config) -> (r: Result<RenderOutput, RenderError>)
    requires
        config_wf(*cfg),
    ensures
        match r {
            Ok(out) => grid_spec(image_bytes@, *cfg) is Ok && out.art@ == grid_spec(
                image_bytes@,
                *cfg,
            )->Ok_0.0 && palette_view(out.palette@) == grid_spec(image_bytes@, *cfg)->Ok_0.1,
            Err(e) => grid_spec(image_bytes@, *cfg) is Err && e == grid_spec(
                image_bytes@,
                *cfg,
            )->Err_0,
        },
{
    match decode_image(image_bytes) {
        Err(_) => Err(RenderError::Decode),
        Ok((w, h, pixels)) => {
            if w == 0 || h == 0 {
                Err(RenderError::ZeroDimension)
            } else {
                match render_rgba(w, h, &pixels, cfg) {
                    Ok(out) => Ok(out),
                    Err(e) => Err(e),
                }
            }
        },
    }
}

} // verus!

verus! {

/// Law: the transform is deterministic — identical image bytes and an
/// identical configuration yield the identical result, on every call.
pub proof fn lemma_deterministic(bytes1: Seq<u8>, cfg1: Config, bytes2: Seq<u8>, cfg2: Config)
    requires
        bytes1 == bytes2,
        cfg1 == cfg2,
    ensures
        grid_spec(bytes1, cfg1) == grid_spec(bytes2, cfg2),
{
}

/// Law: the rendered text has exactly the resolved target height rows of
/// exactly the resolved target width characters — a newline stands after
/// every row but the last and nowhere else — and the palette holds at most
/// 87 entries.
pub proof fn lemma_render_shape(w: int, h: int, pixels: Seq<u8>, cfg: Config)
    requires
        w >= 1,
        h >= 1,
    ensures
        ({
            let dims = resolved_dims(cfg, w, h);
            let out = render_spec(w, h, pixels, cfg);
            &&& out.0.len() == dims.1 * (dims.0 + 1) - 1
            &&& forall|y: int|
                0 <= y < dims.1 - 1 ==> out.0[#[trigger] crate::grid::text_pos(dims.0, y, dims.0)]
                    == '\n'
            &&& forall|y: int, x: int|
                0 <= y < dims.1 && 0 <= x < dims.0 ==> out.0[#[trigger] crate::grid::text_pos(
                    dims.0,
                    y,
                    x,
                )] != '\n'
            &&& out.1.len() <= 87
        }),
{
    let dims = resolved_dims(cfg, w, h);
    crate::dims::lemma_resolved_pos(cfg, w, h);
    let rpix = lanczos(w, h, pixels, dims.0, dims.1);
    let colors = spec_colors(cfg.colors);
    let cmap = trained_colormap(SAMPLE_FACTOR as int, colors, rpix);
    let classes = spec_classes(colors, rpix, dims.0 * dims.1);
    crate::grid::lemma_art_shape(classes, dims.0, dims.1);
    crate::grid::lemma_palette_bound(classes, dims.0 * dims.1, cmap);
    assert forall|y: int, x: int| 0 <= y < dims.1 && 0 <= x < dims.0 implies render_spec(
        w,
        h,
        pixels,
        cfg,
    ).0[#[trigger] crate::grid::text_pos(dims.0, y, x)] != '\n' by {
        assert(0 <= crate::grid::cell_at(dims.0, y, x) < dims.0 * dims.1) by (nonlinear_arith)
            requires
                crate::grid::cell_at(dims.0, y, x) == y * dims.0 + x,
                0 <= y < dims.1,
                0 <= x < dims.0,
        ;
        crate::grid::lemma_cell_char_not_newline(classes, crate::grid::cell_at(dims.0, y, x));
    }
}

} // verus!
