use vstd::prelude::*;

verus! {

/// The two ways an instruction of this program can be refused: each guarded
/// action may run at most once per cooldown window.
#[derive(Clone, Copy, Debug, PartialEq, Eq, Structural)]
pub enum ErrorCode {
    CannotAddYet,
    CannotTransferYet,
}

impl ErrorCode {
    /// The human-readable message attached to each error.
    pub fn message(&self) -> (r: &'static str)
        ensures
            *self == ErrorCode::CannotAddYet ==> r@ == "must pass 5 minutes since last add"@,
            *self == ErrorCode::CannotTransferYet ==> r@ == "must pass 5 minutes since last transfer"@,
    {
        match self {
            ErrorCode::CannotAddYet => "must pass 5 minutes since last add",
            ErrorCode::CannotTransferYet => "must pass 5 minutes since last transfer",
        }
    }
}

} // verus!
