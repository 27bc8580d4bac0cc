//! The service-startup capability interfaces and the two dispatch helpers:
//! one resolved at compile time over an implementer-chosen error type, one
//! working a heterogeneous collection through the shared text interface.

use vstd::prelude::*;
use crate::services::{ServiceOne, ServiceThree, ServiceTwo};

verus! {

/// Conversion of an error value to text, with the text pinned by a spec
/// function so that contracts can speak of it.
pub trait ErrorText {
    /// The text this value renders to.
    spec fn text_spec(&self) -> Seq<char>;

    /// Renders the value as text.
    fn to_text(&self) -> (r: String)
        ensures
            r@ == self.text_spec(),
    ;
}

impl ErrorText for String {
    /// A plain string is its own text.
    open spec fn text_spec(&self) -> Seq<char> {
        self@
    }

    fn to_text(&self) -> (r: String) {
        self.clone()
    }
}

/// A service that can be started through a plain text-error interface.
/// Which results a start may report is pinned per implementer by
/// [`StartableService::text_post`]; starting never changes the service.
pub trait StartableService: Sized {
    /// Exactly the results a start may report over the text interface.
    spec fn text_post(&self, r: Result<(), String>) -> bool;

    /// Starts the service: leaves it unchanged and returns a result allowed
    /// by [`StartableService::text_post`].
    fn start(&mut self) -> (r: Result<(), String>)
        ensures
            *final(self) == *old(self),
            old(self).text_post(r),
    ;
}

/// A service whose start reports failure through an implementer-chosen error
/// type. Which results the typed start may return is pinned per implementer
/// by [`AssocService::start_post`].
pub trait AssocService: Sized {
    type AssocError;

    /// Exactly the results the typed start may return.
    spec fn start_post(&self, r: Result<(), Self::AssocError>) -> bool;

    /// Starts the service: leaves it unchanged and returns a result allowed
    /// by [`AssocService::start_post`].
    fn start(&mut self) -> (r: Result<(), Self::AssocError>)
        ensures
            *final(self) == *old(self),
            old(self).start_post(r),
    ;
}

/// How a text result relates to a typed one: success passes through, a typed
/// error is replaced by its text.
pub open spec fn lowered_to_text<E: ErrorText>(r: Result<(), String>, tr: Result<(), E>) -> bool {
    match tr {
        Ok(()) => r == Ok::<(), String>(()),
        Err(e) => r matches Err(m) && m@ == e.text_spec(),
    }
}

/// Starts one service through its typed interface, resolved at compile time
/// to the concrete service type, and lowers any typed error to its text form;
/// success passes through unchanged.
pub fn start_service<S: AssocService>(s: &mut S) -> (r: Result<(), String>) where
    S::AssocError: ErrorText + Clone,

    ensures
        *final(s) == *old(s),
        exists|tr: Result<(), S::AssocError>|
            #[trigger] old(s).start_post(tr) && lowered_to_text(r, tr),
{
    let tr = s.start();
    let ghost w = tr;
    match tr {
        Ok(()) => Ok(()),
        Err(e) => {
            // Requiring Clone beside the text conversion shows a bound made of
            // several traits; the duplicate itself is not needed.
            let _ = e.clone();
            let m = e.to_text();
            proof {
                assert(old(s).start_post(w) && lowered_to_text(Err::<(), String>(m), w));
            }
            Err(m)
        },
    }
}

/// One service of any variant, so that services of differing concrete types
/// can stand in one collection and be started through the shared interface.
#[derive(Debug)]
pub enum AnyService {
    One(ServiceOne),
    Two(ServiceTwo),
    Three(ServiceThree),
}

impl AnyService {
    /// The outcome that starting this service reports over the text
    /// interface, fixed by the variant and its construction-time state.
    pub open spec fn outcome(&self) -> Result<(), Seq<char>> {
        match self {
            AnyService::One(_) => Ok(()),
            AnyService::Two(_) => Err("Custom Service error: Service two failed!"@),
            AnyService::Three(s) => if s.fails {
                Err("Failed to start service"@)
            } else {
                Ok(())
            },
        }
    }
}

/// Whether a text result is exactly the given outcome.
pub open spec fn text_result_is(r: Result<(), String>, o: Result<(), Seq<char>>) -> bool {
    match (r, o) {
        (Ok(()), Ok(())) => true,
        (Err(m), Err(t)) => m@ == t,
        _ => false,
    }
}

impl StartableService for AnyService {
    /// The result is exactly the held variant's outcome.
    open spec fn text_post(&self, r: Result<(), String>) -> bool {
        text_result_is(r, self.outcome())
    }

    fn start(&mut self) -> (r: Result<(), String>) {
        match self {
            AnyService::One(s) => StartableService::start(s),
            AnyService::Two(s) => StartableService::start(s),
            AnyService::Three(s) => StartableService::start(s),
        }
    }
}

/// Starts every service in the sequence, in order, through one shared call
/// path, and does not stop at a failure: the i-th result is exactly the
/// outcome of the i-th service, and no service is changed.
pub fn start_all(services: &mut Vec<AnyService>) -> (results: Vec<Result<(), String>>)
    ensures
        final(services)@ == old(services)@,
        results@.len() == old(services)@.len(),
        forall|i: int|
            0 <= i < results@.len() ==> text_result_is(
                #[trigger] results@[i],
                old(services)@[i].outcome(),
            ),
{
    let mut results: Vec<Result<(), String>> = Vec::new();
    let mut idx: usize = 0;
    while idx < services.len()
        invariant
            idx <= services@.len(),
            services@ == old(services)@,
            results@.len() == idx,
            forall|i: int|
                0 <= i < idx ==> text_result_is(
                    #[trigger] results@[i],
                    old(services)@[i].outcome(),
                ),
        decreases services@.len() - idx,
    {
        let s = &mut services[idx];
        let r = s.start();
        results.push(r);
        idx += 1;
    }
    results
}

} // verus!
