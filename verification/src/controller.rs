use vstd::prelude::*;

verus! {

/// Answers requests with the help of a model of the tickets.
pub struct Controller<M> {
    ticket_model: M,
}

impl<M> Controller<M> {
    /// The model that the controller answers from.
    pub closed spec fn model(&self) -> M {
        self.ticket_model
    }

    /// A controller that answers from `ticket_model`.
    pub fn new(ticket_model: M) -> (r: Controller<M>)
        ensures
            r.model() == ticket_model,
    {
        Controller { ticket_model }
    }

    /// The answer to a health check.
    pub fn health() -> (r: String)
        ensures
            r@ == "OK"@,
    {
        "OK".to_owned()
    }

    /// The model that the controller answers from.
    pub fn ticket_model(&self) -> (r: &M)
        ensures
            *r == self.model(),
    {
        &self.ticket_model
    }
}

} // verus!
