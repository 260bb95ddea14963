//! What the user asks the program to watch.

use vstd::prelude::*;

verus! {

/// The symbols to watch: stocks, and the underlying stocks of options.
#[derive(Debug, Clone, PartialEq, Eq)]
pub struct Config {
    pub stocks: Vec<String>,
    pub options: Vec<String>,
}

} // verus!
