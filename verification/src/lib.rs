//! Decision and encoding logic for showing rendered pages through the kitty graphics protocol,
//! directly or through tmux.
use vstd::prelude::*;

pub mod dbg_writer;
pub mod decimal;
pub mod image_id;
pub mod kitty;
pub mod placeholder;
pub mod tmux;

pub use image_id::image_id_base;

verus! {

/// How many pages are rendered ahead of time: all of them, or a positive number.
#[derive(Copy, Clone, PartialEq, Eq, Debug, Structural)]
pub enum PrerenderLimit {
    All,
    Limited(usize),
}

/// Whether a rendered page is scaled to fit inside its area or to fill it.
#[derive(Copy, Clone, PartialEq, Eq, Debug, Structural)]
pub enum FitOrFill {
    Fit,
    Fill,
}

/// The dimension of a page that is scaled to match its area exactly; the other one is scaled
/// by the same factor.
#[derive(Copy, Clone, PartialEq, Eq, Debug, Structural)]
pub enum ScaleAxis {
    Width,
    Height,
}

/// The axis matched exactly: fitting a page whose aspect ratio exceeds the area's matches its
/// width (it would otherwise overflow sideways), filling matches the other one.
pub open spec fn scale_axis_spec(img_wider: bool, fit_or_fill: FitOrFill) -> ScaleAxis {
    if img_wider == (fit_or_fill == FitOrFill::Fit) {
        ScaleAxis::Width
    } else {
        ScaleAxis::Height
    }
}

/// Chooses the axis along which a page is scaled to its area; `img_wider` tells whether the
/// page's aspect ratio (width / height) exceeds the area's.
pub fn scale_axis(img_wider: bool, fit_or_fill: FitOrFill) -> (axis: ScaleAxis)
    ensures
        axis == scale_axis_spec(img_wider, fit_or_fill),
{
    match (img_wider, fit_or_fill) {
        (true, FitOrFill::Fit) | (false, FitOrFill::Fill) => ScaleAxis::Width,
        (false, FitOrFill::Fit) | (true, FitOrFill::Fill) => ScaleAxis::Height,
    }
}

/// Fitting and filling the same page into the same area always match opposite axes.
pub proof fn lemma_fit_and_fill_opposite(img_wider: bool)
    ensures
        scale_axis_spec(img_wider, FitOrFill::Fit) != scale_axis_spec(img_wider, FitOrFill::Fill),
{
}

} // verus!
