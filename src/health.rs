//! The liveness payload, fixed the first time it is asked for.
use vstd::prelude::*;

verus! {

/// The payload answered when nothing could be loaded.
pub open spec fn default_payload() -> Seq<char> {
    "OK"@
}

/// The answer to a probe, given what was remembered and what was loaded.
pub open spec fn health_answer(remembered: Option<Seq<char>>, loaded: Option<Seq<char>>) -> Seq<char> {
    match remembered {
        Some(p) => p,
        None => match loaded {
            Some(l) => l,
            None => default_payload(),
        },
    }
}

/// What is remembered after a probe.
pub open spec fn health_after(remembered: Option<Seq<char>>, loaded: Option<Seq<char>>) -> Option<Seq<char>> {
    Some(health_answer(remembered, loaded))
}

/// The liveness payload of one process.
pub struct HealthStatus {
    payload: Option<String>,
}

impl View for HealthStatus {
    type V = Option<Seq<char>>;

    closed spec fn view(&self) -> Option<Seq<char>> {
        match self.payload {
            Some(p) => Some(p@),
            None => None,
        }
    }
}

impl HealthStatus {
    /// A status that has answered no probe yet.
    pub fn new() -> (r: HealthStatus)
        ensures
            r@ is None,
    {
        HealthStatus { payload: None }
    }

    /// Answers a probe. The first answer is what `loaded` holds (the
    /// resource cache's text, if it could be read), else "OK"; every later
    /// answer repeats it.
    pub fn health(&mut self, loaded: Option<String>) -> (r: String)
        ensures
            r@ == health_answer(old(self)@, match loaded {
                Some(l) => Some(l@),
                None => None,
            }),
            final(self)@ == Some(r@),
    {
        match &self.payload {
            Some(p) => p.clone(),
            None => {
                let answer = match loaded {
                    Some(l) => l,
                    None => String::from_str("OK"),
                };
                self.payload = Some(answer.clone());
                answer
            },
        }
    }
}

/// Once a probe has been answered, every later probe gets the same
/// payload, whatever could be loaded then.
pub proof fn lemma_health_idempotent(remembered: Option<Seq<char>>, first: Option<Seq<char>>, later: Option<Seq<char>>)
    ensures
        health_answer(health_after(remembered, first), later) == health_answer(remembered, first),
        health_after(health_after(remembered, first), later) == health_after(remembered, first),
{
}

} // verus!
