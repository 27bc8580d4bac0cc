//! The three concrete services: one that always starts, one that always
//! fails, and one whose outcome is fixed by a flag set at construction.

use vstd::prelude::*;
use crate::service_error::Error;
use crate::startup::{AssocService, ErrorText, StartableService};

verus! {

/// A service that always starts.
#[derive(Debug)]
pub struct ServiceOne;

impl StartableService for ServiceOne {
    /// Always success.
    open spec fn text_post(&self, r: Result<(), String>) -> bool {
        r is Ok
    }

    fn start(&mut self) -> (r: Result<(), String>) {
        Ok(())
    }
}

impl AssocService for ServiceOne {
    type AssocError = String;

    /// Always success.
    open spec fn start_post(&self, r: Result<(), String>) -> bool {
        r == Ok::<(), String>(())
    }

    fn start(&mut self) -> (r: Result<(), String>) {
        Ok(())
    }
}

/// A service that always fails to start.
#[derive(Debug)]
pub struct ServiceTwo;

impl StartableService for ServiceTwo {
    /// Always fails; the text is the custom typed error's text form.
    open spec fn text_post(&self, r: Result<(), String>) -> bool {
        r matches Err(m) && m@ == "Custom Service error: Service two failed!"@
    }

    fn start(&mut self) -> (r: Result<(), String>) {
        let e = Error::Custom("Service two failed!".to_owned());
        let m = e.to_text();
        proof {
            reveal_strlit("Custom Service error: ");
            reveal_strlit("Service two failed!");
            reveal_strlit("Custom Service error: Service two failed!");
            assert(m@ =~= "Custom Service error: Service two failed!"@);
        }
        Err(m)
    }
}

impl AssocService for ServiceTwo {
    type AssocError = Error;

    /// Always the custom typed error with the fixed message.
    open spec fn start_post(&self, r: Result<(), Error>) -> bool {
        r matches Err(Error::Custom(m)) && m@ == "Service two failed!"@
    }

    fn start(&mut self) -> (r: Result<(), Error>) {
        Err(Error::Custom("Service two failed!".to_owned()))
    }
}

/// A service that fails exactly when its flag was set at construction; the
/// flag is never changed afterwards.
#[derive(Debug)]
pub struct ServiceThree {
    pub fails: bool,
}

impl StartableService for ServiceThree {
    /// Fails with the fixed failure text exactly when the flag is set.
    open spec fn text_post(&self, r: Result<(), String>) -> bool {
        if self.fails {
            r matches Err(m) && m@ == "Failed to start service"@
        } else {
            r is Ok
        }
    }

    fn start(&mut self) -> (r: Result<(), String>) {
        if self.fails {
            Err(Error::FailedToStart.to_text())
        } else {
            Ok(())
        }
    }
}

impl AssocService for ServiceThree {
    type AssocError = Error;

    /// The fixed typed failure exactly when the flag is set.
    open spec fn start_post(&self, r: Result<(), Error>) -> bool {
        if self.fails {
            r == Err::<(), Error>(Error::FailedToStart)
        } else {
            r == Ok::<(), Error>(())
        }
    }

    fn start(&mut self) -> (r: Result<(), Error>) {
        if self.fails {
            Err(Error::FailedToStart)
        } else {
            Ok(())
        }
    }
}

impl ServiceThree {
    /// A third start beside the two trait ones, with a minimal failure
    /// signal: presence only, no payload. Callers disambiguate the three by
    /// naming the implementation they mean; a plain method call reaches this
    /// inherent one.
    pub fn start(&mut self) -> (r: Result<(), ()>)
        ensures
            *final(self) == *old(self),
            old(self).fails ==> r == Err::<(), ()>(()),
            !old(self).fails ==> r == Ok::<(), ()>(()),
    {
        if self.fails {
            Err(())
        } else {
            Ok(())
        }
    }
}

} // verus!
