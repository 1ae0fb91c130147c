//! The resize planner.
//!
//! Given a source image's native dimensions and one target width, the
//! planner computes the output dimensions.  With skip-upscaling enabled a
//! source no wider than the target keeps its dimensions unchanged (a
//! no-op resize, still re-encoded); otherwise the output height is
//! `floor(source_height * target_width / source_width)`, the exact
//! truncating formula kept for compatibility with existing variants.

use vstd::prelude::*;

verus! {

/// The planned output dimensions for one target width, or `None` when
/// the truncated height does not fit the dimension type.
pub open spec fn spec_plan_width(
    source_width: u32,
    source_height: u32,
    target_width: u32,
    skip_upscaling: bool,
) -> Option<(u32, u32)> {
    if skip_upscaling && source_width <= target_width {
        Some((source_width, source_height))
    } else {
        let h = (source_height as int) * (target_width as int) / (source_width as int);
        if h <= u32::MAX {
            Some((target_width, h as u32))
        } else {
            None
        }
    }
}

/// Plans the output dimensions for one target width, applying the
/// no-upscale policy: a source no wider than the target is returned
/// unchanged; otherwise the width is the target and the height follows
/// the truncating aspect formula.
pub fn plan_width(
    source_width: u32,
    source_height: u32,
    target_width: u32,
    skip_upscaling: bool,
) -> (r: Option<(u32, u32)>)
    requires
        source_width >= 1,
    ensures
        r == spec_plan_width(source_width, source_height, target_width, skip_upscaling),
        skip_upscaling && source_width <= target_width ==> r == Some::<(u32, u32)>(
            (source_width, source_height),
        ),
{
    if skip_upscaling && source_width <= target_width {
        return Some((source_width, source_height));
    }
    proof {
        assert((source_height as int) * (target_width as int) <= (u32::MAX as int) * (
        u32::MAX as int)) by (nonlinear_arith)
            requires
                source_height <= u32::MAX,
                target_width <= u32::MAX,
        ;
    }
    let h = (source_height as u64) * (target_width as u64) / (source_width as u64);
    if h <= u32::MAX as u64 {
        Some((target_width, h as u32))
    } else {
        None
    }
}

} // verus!
