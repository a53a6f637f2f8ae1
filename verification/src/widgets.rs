use vstd::prelude::*;

verus! {

/// Settings of the map view. The map has none beyond its fixed latitude and
/// longitude frame, so the record is empty.
#[derive(Clone, Copy, Debug, Default)]
pub struct WidgetMap {}

} // verus!
