//! When the widget provider's class factory refuses to create a provider.
use vstd::prelude::*;

verus! {

/// `E_POINTER`: the out pointer for the new object is null.
pub const E_POINTER: i32 = -2147467261i32;
/// `CLASS_E_NOAGGREGATION`: the provider cannot be aggregated.
pub const CLASS_E_NOAGGREGATION: i32 = -2147221232i32;

/// Why a request to create a provider is refused.
#[derive(Clone, Copy, Debug, PartialEq, Eq, Structural)]
pub enum ActivationRefusal {
    /// No place was given to put the new object.
    NullOutPointer,
    /// An outer object asked to aggregate the provider.
    AggregationUnsupported,
}

/// Decides whether a request to create a provider is refused: a null out
/// pointer is refused first, then any outer object.
pub fn activation_refusal(out_pointer_null: bool, has_outer: bool) -> (r: Option<ActivationRefusal>)
    ensures
        out_pointer_null ==> r == Some(ActivationRefusal::NullOutPointer),
        !out_pointer_null && has_outer ==> r == Some(ActivationRefusal::AggregationUnsupported),
        !out_pointer_null && !has_outer ==> r is None,
{
    if out_pointer_null {
        Some(ActivationRefusal::NullOutPointer)
    } else if has_outer {
        Some(ActivationRefusal::AggregationUnsupported)
    } else {
        None
    }
}

impl ActivationRefusal {
    /// The `HRESULT` a refusal is reported with.
    pub fn hresult(&self) -> (r: i32)
        ensures
            r == match *self {
                ActivationRefusal::NullOutPointer => E_POINTER,
                ActivationRefusal::AggregationUnsupported => CLASS_E_NOAGGREGATION,
            },
    {
        match self {
            ActivationRefusal::NullOutPointer => E_POINTER,
            ActivationRefusal::AggregationUnsupported => CLASS_E_NOAGGREGATION,
        }
    }
}

} // verus!
