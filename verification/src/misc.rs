//! What is known of the file that a class was read from.

use vstd::prelude::*;

verus! {

/// The facts about a class file that the header of a listing shows.
#[derive(Clone, Debug, PartialEq, Eq)]
pub struct SysInfo {
    pub class_file: String,
    pub last_modified: String,
    pub size: usize,
    pub checksum: String,
}

} // verus!
