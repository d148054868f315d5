//! The video filter graph: the fixed filter-chain expression for each
//! fit mode, and the scaling policy the expressions embody, stated over
//! integer pixel dimensions so its guarantees can be proved.

use crate::types::ImageFitMode;
use crate::{TARGET_HEIGHT, TARGET_WIDTH};
use vstd::prelude::*;
use vstd::string::StringExecFns;

verus! {

/// The filter chain applied to a background image: `Fit` scales down
/// only (never up), pads the canvas with black and normalizes the pixel
/// format; `Fill` scales to cover the canvas, crops the overflow and
/// normalizes the same way.
pub open spec fn filter_chain_spec(mode: ImageFitMode) -> Seq<char> {
    match mode {
        ImageFitMode::Fit => (
        "scale=iw*min(1\\,min(1920/iw\\,1080/ih)):ih*min(1\\,min(1920/iw\\,1080/ih)),pad=1920:1080:(ow-iw)/2:(oh-ih)/2:black,format=yuv444p"
        )@,
        ImageFitMode::Fill => (
        "scale=1920:1080:force_original_aspect_ratio=increase,crop=1920:1080,format=yuv444p"
        )@,
    }
}

/// The filter-chain expression handed to the external engine for the
/// given fit mode.
pub fn filter_chain(mode: ImageFitMode) -> (r: String)
    ensures
        r@ == filter_chain_spec(mode),
{
    match mode {
        ImageFitMode::Fit => String::from_str(
            "scale=iw*min(1\\,min(1920/iw\\,1080/ih)):ih*min(1\\,min(1920/iw\\,1080/ih)),pad=1920:1080:(ow-iw)/2:(oh-ih)/2:black,format=yuv444p",
        ),
        ImageFitMode::Fill => String::from_str(
            "scale=1920:1080:force_original_aspect_ratio=increase,crop=1920:1080,format=yuv444p",
        ),
    }
}

/// The dimensions `Fit` mode scales a source image to before padding:
/// scaling by the minimum of one and the tightest target ratio, so a
/// source that already fits the canvas is never upscaled, and a larger
/// source is shrunk until both dimensions fit.
pub fn fit_scaled_dims(iw: u32, ih: u32) -> (r: (u32, u32))
    requires
        iw > 0,
        ih > 0,
    ensures
        r.0 <= iw && r.1 <= ih,
        r.0 <= TARGET_WIDTH && r.1 <= TARGET_HEIGHT,
        iw <= TARGET_WIDTH && ih <= TARGET_HEIGHT ==> r == (iw, ih),
{
    proof {
        assert(TARGET_WIDTH == 1920 && TARGET_HEIGHT == 1080);
    }
    if iw <= TARGET_WIDTH && ih <= TARGET_HEIGHT {
        (iw, ih)
    } else if 1920u64 * (ih as u64) <= 1080u64 * (iw as u64) {
        // The width ratio binds; the scaled height rounds down.
        let sh: u64 = 1920u64 * (ih as u64) / (iw as u64);
        proof {
            assert(iw >= 1920) by (nonlinear_arith)
                requires
                    iw > 0,
                    ih > 0,
                    !(iw <= 1920 && ih <= 1080),
                    1920u64 * (ih as u64) <= 1080u64 * (iw as u64),
            ;
            assert(1920 * (ih as int) / (iw as int) <= ih) by (nonlinear_arith)
                requires
                    iw >= 1920,
                    ih > 0,
            ;
            assert(1920 * (ih as int) / (iw as int) <= 1080)
                by (nonlinear_arith)
                requires
                    iw > 0,
                    1920 * (ih as int) <= 1080 * (iw as int),
            ;
        }
        (TARGET_WIDTH, sh as u32)
    } else {
        // The height ratio binds; the scaled width rounds down.
        let sw: u64 = 1080u64 * (iw as u64) / (ih as u64);
        proof {
            assert(ih >= 1080) by (nonlinear_arith)
                requires
                    iw > 0,
                    ih > 0,
                    !(iw <= 1920 && ih <= 1080),
                    1920u64 * (ih as u64) > 1080u64 * (iw as u64),
            ;
            assert(1080 * (iw as int) / (ih as int) <= iw) by (nonlinear_arith)
                requires
                    ih >= 1080,
                    iw > 0,
            ;
            assert(1080 * (iw as int) / (ih as int) <= 1920)
                by (nonlinear_arith)
                requires
                    ih > 0,
                    1920 * (ih as int) > 1080 * (iw as int),
            ;
        }
        (sw as u32, TARGET_HEIGHT)
    }
}

/// The dimensions `Fill` mode scales a source image to before cropping:
/// cover semantics, so both dimensions reach at least the canvas and
/// the binding one lands exactly on it. The covering dimension of an
/// extreme aspect ratio can exceed what a `u32` holds, so both are
/// returned widened.
pub fn fill_cover_dims(iw: u32, ih: u32) -> (r: (u64, u64))
    requires
        iw > 0,
        ih > 0,
    ensures
        r.0 >= TARGET_WIDTH && r.1 >= TARGET_HEIGHT,
        r.0 == TARGET_WIDTH || r.1 == TARGET_HEIGHT,
{
    proof {
        assert(TARGET_WIDTH == 1920 && TARGET_HEIGHT == 1080);
    }
    if 1920u64 * (ih as u64) <= 1080u64 * (iw as u64) {
        // Wider than the canvas: the height lands on it, the width covers.
        let sw: u64 = 1080u64 * (iw as u64) / (ih as u64);
        proof {
            assert(1080 * (iw as int) / (ih as int) >= 1920)
                by (nonlinear_arith)
                requires
                    ih > 0,
                    1920 * (ih as int) <= 1080 * (iw as int),
            ;
            assert(1080 * (iw as int) / (ih as int) <= (TARGET_HEIGHT as int) * (
            iw as int)) by (nonlinear_arith)
                requires
                    ih > 0,
                    iw > 0,
            ;
        }
        (sw, TARGET_HEIGHT as u64)
    } else {
        // Taller than the canvas: the width lands on it, the height covers.
        let sh: u64 = 1920u64 * (ih as u64) / (iw as u64);
        proof {
            assert(1920 * (ih as int) / (iw as int) >= 1080)
                by (nonlinear_arith)
                requires
                    iw > 0,
                    1920 * (ih as int) > 1080 * (iw as int),
            ;
            assert(1920 * (ih as int) / (iw as int) <= (TARGET_WIDTH as int) * (
            ih as int)) by (nonlinear_arith)
                requires
                    iw > 0,
                    ih > 0,
            ;
        }
        (TARGET_WIDTH as u64, sh)
    }
}

/// What `Fill` mode delivers after its crop: exactly the target canvas,
/// whatever the source aspect ratio was. The crop keeps at most the
/// canvas in each dimension, and cover scaling guarantees at least it.
pub fn fill_output_dims(iw: u32, ih: u32) -> (r: (u32, u32))
    requires
        iw > 0,
        ih > 0,
    ensures
        r == (TARGET_WIDTH, TARGET_HEIGHT),
{
    let cover = fill_cover_dims(iw, ih);
    let cw: u32 = if cover.0 < TARGET_WIDTH as u64 {
        cover.0 as u32
    } else {
        TARGET_WIDTH
    };
    let ch: u32 = if cover.1 < TARGET_HEIGHT as u64 {
        cover.1 as u32
    } else {
        TARGET_HEIGHT
    };
    (cw, ch)
}

} // verus!
