use vstd::prelude::*;

verus! {

/// A minimal contract state holding one counter value.
pub struct Contract {
    pub value: u32,
}

impl Contract {
    /// Sums a wide argument list; the caller keeps the total within `u32`.
    pub fn many_args(
        &self,
        arg1: u32,
        arg2: u32,
        arg3: u32,
        arg4: u32,
        arg5: u32,
        arg6: u32,
        arg7: u32,
        arg8: u32,
    ) -> (r: u32)
        requires
            arg1 + arg2 + arg3 + arg4 + arg5 + arg6 + arg7 + arg8 <= u32::MAX,
        ensures
            r == arg1 + arg2 + arg3 + arg4 + arg5 + arg6 + arg7 + arg8,
    {
        arg1 + arg2 + arg3 + arg4 + arg5 + arg6 + arg7 + arg8
    }
}

} // verus!
