//! The optional parameters of the request for all releases of economic data.
use vstd::prelude::*;
use crate::query::{NumericParam, Query, QueryBuilder, WireEnum, ORDER_BY, REALTIME_END, REALTIME_START, SORT_ORDER};

verus! {

/// The attribute by which the releases are ordered.
#[derive(Clone, Copy, Debug, PartialEq, Eq, Structural)]
pub enum OrderBy {
    /// The release id; what the service assumes.
    ReleaseId,
    Name,
    PressRelease,
    RealtimeStart,
    RealtimeEnd,
}

/// The direction in which the releases are sorted.
#[derive(Clone, Copy, Debug, PartialEq, Eq, Structural)]
pub enum SortOrder {
    /// Ascending; what the service assumes.
    Ascending,
    /// Descending.
    Descending,
}

impl WireEnum for OrderBy {
    open spec fn wire(&self) -> Seq<char> {
        match self {
            OrderBy::ReleaseId => "release_id"@,
            OrderBy::Name => "name"@,
            OrderBy::PressRelease => "press_release"@,
            OrderBy::RealtimeStart => "realtime_start"@,
            OrderBy::RealtimeEnd => "realtime_end"@,
        }
    }

    open spec fn is_default(&self) -> bool {
        *self == OrderBy::ReleaseId
    }

    proof fn lemma_wire_is_injective(a: Self, b: Self) {
        reveal_strlit("release_id");
        reveal_strlit("name");
        reveal_strlit("press_release");
        reveal_strlit("realtime_start");
        reveal_strlit("realtime_end");
        if a.wire() == b.wire() {
            assert(a.wire().len() == b.wire().len());
        }
    }

    proof fn lemma_default_is_unique(a: Self, b: Self) {
    }

    fn wire_str(&self) -> (s: &'static str) {
        match self {
            OrderBy::ReleaseId => "release_id",
            OrderBy::Name => "name",
            OrderBy::PressRelease => "press_release",
            OrderBy::RealtimeStart => "realtime_start",
            OrderBy::RealtimeEnd => "realtime_end",
        }
    }

    fn is_declared_default(&self) -> (b: bool) {
        match self {
            OrderBy::ReleaseId => true,
            _ => false,
        }
    }
}

impl WireEnum for SortOrder {
    open spec fn wire(&self) -> Seq<char> {
        match self {
            SortOrder::Ascending => "asc"@,
            SortOrder::Descending => "desc"@,
        }
    }

    open spec fn is_default(&self) -> bool {
        *self == SortOrder::Ascending
    }

    proof fn lemma_wire_is_injective(a: Self, b: Self) {
        reveal_strlit("asc");
        reveal_strlit("desc");
        if a.wire() == b.wire() {
            assert(a.wire().len() == b.wire().len());
        }
    }

    proof fn lemma_default_is_unique(a: Self, b: Self) {
    }

    fn wire_str(&self) -> (s: &'static str) {
        match self {
            SortOrder::Ascending => "asc",
            SortOrder::Descending => "desc",
        }
    }

    fn is_declared_default(&self) -> (b: bool) {
        match self {
            SortOrder::Ascending => true,
            SortOrder::Descending => false,
        }
    }
}

/// The optional parameters of a `releases` request.
pub struct Builder {
    query: QueryBuilder,
}

impl View for Builder {
    type V = Query;

    closed spec fn view(&self) -> Query {
        self.query@
    }
}

impl Builder {
    /// A builder in which nothing is set. Arguments are neither validated
    /// nor checked for duplicates.
    pub fn new() -> (builder: Builder)
        ensures
            builder@ == Query::empty(),
            builder@.rendered() == Seq::<char>::empty(),
    {
        Builder { query: QueryBuilder::new() }
    }

    /// The arguments set so far as a query-string fragment.
    pub fn build(self) -> (fragment: String)
        ensures
            fragment@ == self@.rendered(),
    {
        self.query.finalize()
    }

    /// Adds the start of the real-time period, a date written `YYYY-MM-DD`.
    pub fn realtime_start(&mut self, start_date: &str) -> (ret: &mut Builder)
        ensures
            ret@ == old(self)@.with_date(REALTIME_START@, start_date@),
            *final(self) == *final(ret),
    {
        self.query.set_date_param(REALTIME_START, start_date);
        self
    }

    /// Adds the end of the real-time period, a date written `YYYY-MM-DD`.
    pub fn realtime_end(&mut self, end_date: &str) -> (ret: &mut Builder)
        ensures
            ret@ == old(self)@.with_date(REALTIME_END@, end_date@),
            *final(self) == *final(ret),
    {
        self.query.set_date_param(REALTIME_END, end_date);
        self
    }

    /// Caps the number of results; a cap above 1000 goes out as 1000.
    pub fn limit(&mut self, num_results: usize) -> (ret: &mut Builder)
        ensures
            ret@ == old(self)@.with_number(NumericParam::Limit, num_results as nat),
            *final(self) == *final(ret),
    {
        self.query.set_numeric_param(NumericParam::Limit, num_results);
        self
    }

    /// Skips the first `ofs` results; the number goes out as it came in.
    pub fn offset(&mut self, ofs: usize) -> (ret: &mut Builder)
        ensures
            ret@ == old(self)@.with_number(NumericParam::Offset, ofs as nat),
            *final(self) == *final(ret),
    {
        self.query.set_numeric_param(NumericParam::Offset, ofs);
        self
    }

    /// Orders the results by an attribute; the attribute that the service
    /// assumes leaves no trace in the query.
    pub fn order_by(&mut self, order: OrderBy) -> (ret: &mut Builder)
        ensures
            ret@ == old(self)@.with_enum(ORDER_BY@, order),
            *final(self) == *final(ret),
    {
        self.query.set_enum_param(ORDER_BY, &order);
        self
    }

    /// Sorts the results in a direction; ascending, which the service
    /// assumes, leaves no trace in the query.
    pub fn sort_order(&mut self, order: SortOrder) -> (ret: &mut Builder)
        ensures
            ret@ == old(self)@.with_enum(SORT_ORDER@, order),
            *final(self) == *final(ret),
    {
        self.query.set_enum_param(SORT_ORDER, &order);
        self
    }
}

} // verus!
