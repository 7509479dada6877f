//! The interception point that a client query passes before it is relayed.
use vstd::prelude::*;

verus! {

/// What a handler decided about a client query.
#[derive(Clone, Debug)]
pub enum HandlerOutcome {
    /// A complete DNS reply to send back to the client.
    Answered(Vec<u8>),
    /// The query goes to the upstream resolver.
    Fallback,
}

/// A handler is asked about each client query before it is relayed. It may
/// be shared by several workers at once, so it only reads its own state.
pub trait CustomHandler: Send + Sync {
    /// Decides about the raw query datagram.
    fn lookup(&self, query: &Vec<u8>) -> HandlerOutcome;
}

/// The default handler, which lets every query through to the resolver.
#[derive(Clone, Copy, Debug)]
pub struct EmptyHandler {}

impl EmptyHandler {
    pub fn new() -> (r: EmptyHandler) {
        EmptyHandler {}
    }

    /// Always lets the query through.
    pub fn decide(&self, query: &Vec<u8>) -> (r: HandlerOutcome)
        ensures
            r is Fallback,
    {
        HandlerOutcome::Fallback
    }
}

impl CustomHandler for EmptyHandler {
    fn lookup(&self, query: &Vec<u8>) -> HandlerOutcome {
        self.decide(query)
    }
}

} // verus!
