//! ProgressBar: a bar filled up to the fraction of a task that is done, or a
//! bar with no value when that fraction is unknown.
//!
//! The bar's label shows the progress as a rounded percentage; formatting it
//! computes with floating-point values and is left to the caller, whom
//! [`ProgressBar::set_progress`] tells when the label is to change.

use vstd::prelude::*;
use crate::split::{clamp_fraction, clamp_unit};
use crate::widget::{AccessRole, f64_eq, is_nan_bits, is_negative_bits, is_zero_bits, Request, F64};

verus! {

/// The progress kept for a requested one: no value for no value or NaN,
/// otherwise the value clamped to `[0, 1]`.
pub open spec fn kept_progress(progress: Option<F64>) -> Option<F64> {
    match progress {
        None => None,
        Some(x) => if is_nan_bits(x.0) { None } else { Some(clamp_unit(x)) },
    }
}

/// The `==` of two optional `f64` values.
pub open spec fn progress_eq(a: Option<F64>, b: Option<F64>) -> bool {
    match (a, b) {
        (None, None) => true,
        (Some(x), Some(y)) => f64_eq(x, y),
        _ => false,
    }
}

/// Returns the progress kept for a requested one.
pub fn clamp_progress(progress: Option<F64>) -> (kept: Option<F64>)
    ensures
        kept == kept_progress(progress),
{
    match progress {
        None => None,
        Some(x) => {
            let nan = (x.0 & crate::widget::F64_EXP_MASK) == crate::widget::F64_EXP_MASK
                && (x.0 & crate::widget::F64_MANTISSA_MASK) != 0;
            if nan { None } else { Some(clamp_fraction(x)) }
        },
    }
}

/// A progress bar.
pub struct ProgressBar {
    /// The fraction done, in `[0, 1]`; `None` shows a bar with no value.
    pub progress: Option<F64>,
    pub requests: Vec<Request>,
}

impl ProgressBar {
    /// Creates a progress bar showing the given progress, clamped to `[0, 1]`;
    /// no value or NaN shows a bar with no value.
    pub fn new(progress: Option<F64>) -> (bar: Self)
        ensures
            bar.progress == kept_progress(progress),
            bar.requests@.len() == 0,
    {
        ProgressBar { progress: clamp_progress(progress), requests: Vec::new() }
    }

    /// Sets the progress, clamped to `[0, 1]`; no value or NaN shows a bar
    /// with no value. Requests a new layout and a render. Returns whether the
    /// progress changed, in which case the label is to show the new one.
    pub fn set_progress(this: &mut Self, progress: Option<F64>) -> (changed: bool)
        ensures
            changed == !progress_eq(old(this).progress, kept_progress(progress)),
            final(this).progress == if changed { kept_progress(progress) } else { old(this).progress },
            final(this).requests@ == old(this).requests@.push(Request::Layout).push(Request::Render),
    {
        let kept = clamp_progress(progress);
        let same = match (this.progress, kept) {
            (None, None) => true,
            (Some(x), Some(y)) => x.float_eq(y),
            _ => false,
        };
        if !same {
            this.progress = kept;
        }
        this.requests.push(Request::Layout);
        this.requests.push(Request::Render);
        !same
    }

    /// Whether the bar is painted filled: a bar with no value is filled
    /// whole, and a bar with a value only when it is above zero.
    pub fn fills_bar(&self) -> (fills: bool)
        ensures
            fills == match self.progress {
                None => true,
                Some(x) => !is_nan_bits(x.0) && !is_negative_bits(x.0) && !is_zero_bits(x.0),
            },
    {
        match self.progress {
            None => true,
            Some(x) => {
                let nan = (x.0 & crate::widget::F64_EXP_MASK) == crate::widget::F64_EXP_MASK
                    && (x.0 & crate::widget::F64_MANTISSA_MASK) != 0;
                !nan && !x.is_negative() && (x.0 & crate::widget::F64_MAGNITUDE_MASK) != 0
            },
        }
    }
}

/// The progress kept is never NaN, lies in `[0, 1]` when it has a value,
/// and keeping it again changes nothing.
pub proof fn law_progress_in_unit_range(progress: Option<F64>)
    ensures
        kept_progress(progress) matches Some(x) ==> !is_nan_bits(x.0) && !is_negative_bits(x.0)
            && ((x.0 & crate::widget::F64_SIGN_MASK) == 0 ==> x.0 <= crate::split::F64_ONE),
        kept_progress(kept_progress(progress)) == kept_progress(progress),
{
    if let Some(x) = progress {
        if !is_nan_bits(x.0) {
            crate::split::law_fraction_in_unit_range(x);
            let c = clamp_unit(x);
            assert(!is_nan_bits(c.0)) by {
                assert(!is_nan_bits(0u64)) by (bit_vector);
                assert(!is_nan_bits(crate::split::F64_ONE)) by (bit_vector);
            }
        }
    }
}

impl ProgressBar {
    /// The role the widget reports to accessibility.
    pub fn accessibility_role(&self) -> (role: AccessRole)
        ensures
            role == AccessRole::ProgressIndicator,
    {
        AccessRole::ProgressIndicator
    }
}

} // verus!
