use vstd::prelude::*;

use crate::client::Client;
use crate::client::Request;
use crate::error::Error;
use crate::model::Threat;
use crate::model::Threats;

verus! {

/// What the pagination protocol asks for after a page has been visited.
#[derive(Debug, Clone, PartialEq)]
pub enum IterStep {
    /// Fetch this request and feed the decoded page back.
    Next(Request),
    /// The visitor asked to stop: do not fetch further pages.
    Stopped,
    /// The page carried no `next` cursor: the chain is exhausted.
    Exhausted,
}

impl Client {
    /// One round of the pagination protocol: visit the threats of a
    /// fetched page, in order, until the visitor asks to stop, then say
    /// what to do next.
    ///
    /// The result carries how many threats were visited and the next
    /// step: `Stopped` as soon as the visitor returns false (the rest
    /// of the page is not visited and no cursor is followed),
    /// `Exhausted` when the whole page was visited and it carries no
    /// `next` cursor, and otherwise the request for the page the `next`
    /// cursor names.
    ///
    /// Fails with `MissingApiKey`, visiting nothing, exactly when no
    /// API key is configured.
    pub fn each_feed<F: Fn(&Threat) -> bool>(&self, page: &Threats, f: &F) -> (r: Result<
        (usize, IterStep),
        Error,
    >)
        requires
            forall|t: &Threat| call_requires(*f, (t,)),
        ensures
            r is Ok <==> self.apikey is Some,
            r matches Err(e) ==> e == Error::MissingApiKey,
            r matches Ok((v, step)) ==> {
                &&& v <= page.results@.len()
                &&& (step is Stopped ==> 1 <= v && call_ensures(
                    *f,
                    (&page.results@[v - 1],),
                    false,
                ) && forall|j: int| 0 <= j < v - 1 ==> call_ensures(*f, (&page.results@[j],), true))
                &&& (step is Exhausted ==> v == page.results@.len() && page.next is None && forall|
                    j: int,
                |
                    0 <= j < v ==> call_ensures(*f, (&page.results@[j],), true))
                &&& (step matches IterStep::Next(req) ==> v == page.results@.len() && (
                page.next matches Some(u) && req.url@ == u@) && req.apikey@ == self.apikey->0@
                    && forall|j: int| 0 <= j < v ==> call_ensures(*f, (&page.results@[j],), true))
            },
    {
        if self.apikey.is_none() {
            return Err(Error::MissingApiKey);
        }
        let n = page.results.len();
        let mut i: usize = 0;
        while i < n
            invariant
                forall|t: &Threat| call_requires(*f, (t,)),
                self.apikey is Some,
                0 <= i <= n,
                n == page.results@.len(),
                forall|j: int| 0 <= j < i ==> call_ensures(*f, (&page.results@[j],), true),
            decreases n - i,
        {
            if !f(&page.results[i]) {
                return Ok((i + 1, IterStep::Stopped));
            }
            i += 1;
        }
        match &page.next {
            Some(u) => match self.threats_request(Some(u.as_str())) {
                Ok(req) => Ok((n, IterStep::Next(req))),
                Err(e) => {
                    proof {
                        assert(false);
                    }
                    Err(e)
                },
            },
            None => Ok((n, IterStep::Exhausted)),
        }
    }
}

} // verus!
