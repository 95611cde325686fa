use vstd::prelude::*;

verus! {

/// Human-readable program name shown in the about dialog.
pub fn program_name() -> (s: &'static str)
    ensures
        s@ == "orca"@,
{
    "orca"
}

/// Version string shown in the about dialog.
pub fn version() -> (s: &'static str)
    ensures
        s@ == "0.1.0"@,
{
    "0.1.0"
}

/// Author credited in the about dialog.
pub fn author() -> (s: &'static str)
    ensures
        s@ == "William Roy"@,
{
    "William Roy"
}

} // verus!
