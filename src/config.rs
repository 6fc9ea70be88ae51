use vstd::prelude::*;

verus! {

/// The directories the program keeps its files in, chosen once at start-up.
#[derive(Clone, Debug)]
pub struct DefaultDirs {
    pub home: String,
    pub config: String,
    pub cache: String,
    pub data: String,
    pub state: String,
    pub run: String,
}

} // verus!
