//! Boot-time PCI diagnostics: configuration-space addressing, register
//! decoding, a bus scan driven one configuration read at a time, and the
//! vendor and class name tables used to describe what the scan finds.
use vstd::prelude::*;

pub mod address;
pub mod registers;
pub mod names;
pub mod scan;
pub mod report;
pub mod image;

verus! {

} // verus!
