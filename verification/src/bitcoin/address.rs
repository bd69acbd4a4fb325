//! Where bitcoin is paid to.

use vstd::prelude::*;

verus! {

/// Where bitcoin is paid to: the script that guards the output.
#[derive(Debug, Clone)]
pub struct Address {
    pub script_pubkey: Vec<u8>,
}

impl View for Address {
    type V = Seq<u8>;

    open spec fn view(&self) -> Seq<u8> {
        self.script_pubkey@
    }
}

} // verus!
