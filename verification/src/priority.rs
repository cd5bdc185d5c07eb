use vstd::prelude::*;

verus! {

/// The priority of a notification. Allows Prowl clients to treat the
/// notification differently (for example, an emergency alert may bypass
/// quiet hours).
#[derive(Clone, Copy, Debug, PartialEq, Eq, Structural)]
pub enum Priority {
    VeryLow,
    Moderate,
    Normal,
    High,
    Emergency,
}

/// The signed integer code the Prowl API uses for each priority level.
pub open spec fn priority_code(p: Priority) -> int {
    match p {
        Priority::VeryLow => -2,
        Priority::Moderate => -1,
        Priority::Normal => 0,
        Priority::High => 1,
        Priority::Emergency => 2,
    }
}

impl Priority {
    /// The integer code sent to the Prowl API for this priority level.
    pub fn as_i8(&self) -> (code: i8)
        ensures
            code as int == priority_code(*self),
    {
        match self {
            Priority::VeryLow => -2,
            Priority::Moderate => -1,
            Priority::Normal => 0,
            Priority::High => 1,
            Priority::Emergency => 2,
        }
    }
}

} // verus!
