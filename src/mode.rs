//! Operating modes of the device, as type markers.
use vstd::prelude::*;

verus! {

/// Marker of a device in one-shot mode: it powers down between conversions,
/// and each conversion is started on request.
#[non_exhaustive]
pub struct OneShot;

/// Marker of a device in continuous conversion mode: it converts without
/// pause and the conversion register holds the latest sample.
#[non_exhaustive]
pub struct Continuous;

} // verus!
