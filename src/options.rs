//! What a run is told by its caller.

use vstd::prelude::*;

verus! {

/// The options of a run: where the checklist document is.
#[derive(Debug, Clone, PartialEq, Eq)]
pub struct Opt {
    pub checklist: String,
}

impl Opt {
    /// Options that read the document at `checklist`.
    pub fn new(checklist: String) -> (r: Opt)
        ensures
            r.checklist@ == checklist@,
    {
        Opt { checklist }
    }
}

impl Default for Opt {
    /// The document `.checklist.yml` of the working directory.
    fn default() -> (r: Opt)
        ensures
            r.checklist@ == ".checklist.yml"@,
    {
        Opt { checklist: ".checklist.yml".to_owned() }
    }
}

} // verus!
