//! The ways in which setting up or configuring interrupts fails.

use vstd::prelude::*;

verus! {

/// Why the subsystem could not be set up from what firmware describes.
#[derive(Clone, Copy, Debug, PartialEq, Eq, Structural)]
pub enum InitError {
    /// No node is a PCI host bridge of a recognised kind.
    NotFound,
    /// The host bridge has no configuration window, or one without a size.
    MissingWindow,
    /// The host bridge has no interrupt map.
    MissingInterruptMap,
    /// The host bridge has no mask for its interrupt map.
    MissingInterruptMapMask,
    /// The interrupt map does not divide into whole records, or a record
    /// names an interrupt parent that is unknown or whose interrupt
    /// specifiers are not two cells wide.
    MalformedInterruptMap,
    /// The mask of the interrupt map is not four cells long.
    MalformedInterruptMapMask,
}

/// Why the interrupts of a function could not be configured.
#[derive(Clone, Copy, Debug, PartialEq, Eq, Structural)]
pub enum ConfigureError {
    /// Firmware has not described the wiring of this pin of this function.
    UnroutedPin,
    /// The MSI-X table lies in a BAR that is not a memory BAR.
    UnsupportedBar,
    /// The MSI-X table would lie past the end of what its BAR can address.
    TableOutOfRange,
}

} // verus!
