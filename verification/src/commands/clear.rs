//! The `clear` command: wipe the screen.

use vstd::prelude::*;

use crate::paint::PaintOp;

verus! {

/// Handler of the `clear` command.
pub struct Clear;

impl Clear {
    /// Clears the whole screen, whatever the trailing tokens say, and never
    /// requests a mode switch.
    pub fn execute(&self, _tokens: &Vec<String>) -> (r: (Vec<PaintOp>, bool))
        ensures
            r.0@.len() == 1,
            r.0@[0] == PaintOp::ClearScreen,
            r.1 == false,
    {
        let mut ops: Vec<PaintOp> = Vec::new();
        ops.push(PaintOp::ClearScreen);
        (ops, false)
    }
}

} // verus!
