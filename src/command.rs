use crate::error::SwapError;
use vstd::prelude::*;

verus! {

/// The commands of the control call.
#[derive(Debug, Clone, Copy, PartialEq, Eq)]
pub enum SwapCmd {
    /// Register a new swap area.
    Add,
    /// Enumerate the swap areas into a table.
    List,
    /// Remove a swap area.
    Remove,
    /// Count the swap areas.
    GetNSwp,
    /// Report swap accounting.
    AInfo,
}

/// The code of a command on the wire.
pub open spec fn cmd_code(c: SwapCmd) -> i32 {
    match c {
        SwapCmd::Add => 1,
        SwapCmd::List => 2,
        SwapCmd::Remove => 3,
        SwapCmd::GetNSwp => 4,
        SwapCmd::AInfo => 5,
    }
}

/// Whether a raw code names a command.
pub open spec fn is_cmd_code(code: i32) -> bool {
    1 <= code <= 5
}

impl SwapCmd {
    /// The code that selects this command.
    pub fn code(&self) -> (r: i32)
        ensures
            r == cmd_code(*self),
            is_cmd_code(r),
    {
        match self {
            SwapCmd::Add => 1,
            SwapCmd::List => 2,
            SwapCmd::Remove => 3,
            SwapCmd::GetNSwp => 4,
            SwapCmd::AInfo => 5,
        }
    }

    /// The defensive check in front of the control call: a code outside the
    /// known set is refused and must never be handed to the kernel.
    pub fn from_code(code: i32) -> (r: Result<SwapCmd, SwapError>)
        ensures
            is_cmd_code(code) <==> r is Ok,
            r matches Ok(c) ==> cmd_code(c) == code,
            !is_cmd_code(code) ==> r == Err::<SwapCmd, SwapError>(SwapError::InvalidCommand(code)),
    {
        match code {
            1 => Ok(SwapCmd::Add),
            2 => Ok(SwapCmd::List),
            3 => Ok(SwapCmd::Remove),
            4 => Ok(SwapCmd::GetNSwp),
            5 => Ok(SwapCmd::AInfo),
            _ => Err(SwapError::InvalidCommand(code)),
        }
    }
}

/// Reads the raw return value of the control call: -1 is a failure whose
/// detail is the platform error code `errno`; any other value is the
/// operation's result, taken as unsigned.
pub fn call_result(ret: i32, errno: i32) -> (r: Result<u32, SwapError>)
    ensures
        ret == -1 ==> r == Err::<u32, SwapError>(SwapError::Os(errno)),
        ret != -1 ==> r == Ok::<u32, SwapError>(#[verifier::truncate] (ret as u32)),
{
    if ret == -1 {
        Err(SwapError::Os(errno))
    } else {
        Ok(ret as u32)
    }
}

} // verus!
