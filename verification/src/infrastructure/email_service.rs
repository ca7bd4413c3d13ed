use vstd::prelude::*;

verus! {

/// An e-mail service that sends nothing.
pub struct StubEmailService;

impl StubEmailService {
    pub fn new() -> (r: StubEmailService)
        ensures
            r == (StubEmailService {}),
    {
        StubEmailService {}
    }
}

impl Default for StubEmailService {
    fn default() -> (r: StubEmailService)
        ensures
            r == (StubEmailService {}),
    {
        StubEmailService::new()
    }
}

} // verus!
