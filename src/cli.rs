//! The commands the program offers.
use crate::find::FindCommand;
use crate::scan::ScanCommand;
use vstd::prelude::*;

verus! {

/// Scan volumes or search the catalog.
#[derive(Debug)]
pub struct Args {
    pub command: Commands,
}

/// One command.
#[derive(Debug)]
pub enum Commands {
    Scan(ScanCommand),
    Find(FindCommand),
}

} // verus!
