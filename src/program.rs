use vstd::prelude::*;

use crate::instruction::Instruction;
use crate::vobj::Vobj;

verus! {

/// What a loader hands to an engine: the constants, by name, and the code.
pub struct Program<'a> {
    pub consts: Vec<(String, Vobj)>,
    pub code: Vec<Instruction<'a>>,
}

} // verus!
