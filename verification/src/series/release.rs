//! The optional parameters of the request for the release of a series.
use vstd::prelude::*;
use crate::query::{Query, QueryBuilder, REALTIME_END, REALTIME_START};

verus! {

/// The optional parameters of a `series/release` request.
pub struct Builder {
    query: QueryBuilder,
}

impl View for Builder {
    type V = Query;

    closed spec fn view(&self) -> Query {
        self.query@
    }
}

impl Builder {
    /// A builder in which nothing is set. Duplicate arguments are not
    /// detected: each one goes into the query.
    pub fn new() -> (builder: Builder)
        ensures
            builder@ == Query::empty(),
            builder@.rendered() == Seq::<char>::empty(),
    {
        Builder { query: QueryBuilder::new() }
    }

    /// The arguments set so far as a query-string fragment.
    pub fn options(self) -> (fragment: String)
        ensures
            fragment@ == self@.rendered(),
    {
        self.query.finalize()
    }

    /// Adds the start of the real-time period, a date written `YYYY-MM-DD`.
    pub fn realtime_start(&mut self, start_date: &str) -> (ret: &mut Builder)
        ensures
            ret@ == old(self)@.with_date(REALTIME_START@, start_date@),
            *final(self) == *final(ret),
    {
        self.query.set_date_param(REALTIME_START, start_date);
        self
    }

    /// Adds the end of the real-time period, a date written `YYYY-MM-DD`.
    pub fn realtime_end(&mut self, end_date: &str) -> (ret: &mut Builder)
        ensures
            ret@ == old(self)@.with_date(REALTIME_END@, end_date@),
            *final(self) == *final(ret),
    {
        self.query.set_date_param(REALTIME_END, end_date);
        self
    }
}

} // verus!
