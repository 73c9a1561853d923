use vstd::prelude::*;

verus! {

/// The host's operating system cannot be queried.
#[derive(Clone, Copy, Debug, PartialEq, Eq, Structural)]
pub struct UnsupportedPlatform;

impl UnsupportedPlatform {
    pub fn describe(&self) -> (r: String)
        ensures
            r@ == "Custom error occurred"@,
    {
        String::from_str("Custom error occurred")
    }
}

/// The line printed at startup about platform support.
pub fn platform_notice(supported: bool) -> (r: String)
    ensures
        r@ == (if supported { "supported system"@ } else { "Not supported os"@ }),
{
    if supported {
        String::from_str("supported system")
    } else {
        String::from_str("Not supported os")
    }
}

/// Startup goes on to the terminal interface only on a supported platform.
pub fn check_platform(supported: bool) -> (r: Result<(), UnsupportedPlatform>)
    ensures
        r is Ok <==> supported,
{
    if supported {
        Ok(())
    } else {
        Err(UnsupportedPlatform)
    }
}

} // verus!
