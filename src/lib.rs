//! Batch image conversion under two budgets. A `job::Job` admits items
//! through a `governor::Governor` (concurrency slots and a memory gate), in
//! submission order, one at a time for sequential-only formats; it records
//! each item's outcome, stops admitting on the first failure or on
//! cancellation, and yields either every converted entry or exactly one
//! error. Around it: the encode plan of each format (`format`), output names
//! (`naming`), form and upload checks (`form`, `validation`), progress values
//! and events (`progress`, `publisher`), the codec boundary (`codec`) and the
//! archive writer (`archive`).

use vstd::prelude::*;

pub mod archive;
pub mod codec;
pub mod error;
pub mod form;
pub mod format;
pub mod governor;
pub mod job;
pub mod naming;
pub mod progress;
pub mod publisher;
pub mod text;
pub mod validation;

verus! {

} // verus!
