//! The optional parameters of the request for the tags related to a release.
use vstd::prelude::*;
use crate::query::{ListParam, NumericParam, Query, QueryBuilder, WireEnum, ORDER_BY, REALTIME_END, REALTIME_START, SORT_ORDER};

verus! {

/// The wire key of the tag group filter.
pub const TAG_GROUP_ID: &'static str = "tag_group_id";

/// The wire key of the words to find in tag names.
pub const TAG_SEARCH_TEXT: &'static str = "tag_search_text";

/// The attribute by which the tags are ordered.
#[derive(Clone, Copy, Debug, PartialEq, Eq, Structural)]
pub enum OrderBy {
    /// The number of series that carry the tag; what the service assumes.
    SeriesCount,
    Popularity,
    Created,
    Name,
    GroupId,
}

/// The direction in which the tags are sorted.
#[derive(Clone, Copy, Debug, PartialEq, Eq, Structural)]
pub enum SortOrder {
    /// Ascending; what the service assumes.
    Ascending,
    /// Descending.
    Descending,
}

/// The group of tags to which the results are confined.
#[derive(Clone, Copy, Debug, PartialEq, Eq, Structural)]
pub enum TagGroupId {
    Frequency,
    General,
    Geography,
    GeographyType,
    Release,
    SeasonalAdjustment,
    Source,
}

impl WireEnum for OrderBy {
    open spec fn wire(&self) -> Seq<char> {
        match self {
            OrderBy::SeriesCount => "series_count"@,
            OrderBy::Popularity => "popularity"@,
            OrderBy::Created => "created"@,
            OrderBy::Name => "name"@,
            OrderBy::GroupId => "group_id"@,
        }
    }

    open spec fn is_default(&self) -> bool {
        *self == OrderBy::SeriesCount
    }

    proof fn lemma_wire_is_injective(a: Self, b: Self) {
        reveal_strlit("series_count");
        reveal_strlit("popularity");
        reveal_strlit("created");
        reveal_strlit("name");
        reveal_strlit("group_id");
        if a.wire() == b.wire() {
            assert(a.wire().len() == b.wire().len());
            assert(a.wire()[0] == b.wire()[0]);
        }
    }

    proof fn lemma_default_is_unique(a: Self, b: Self) {
    }

    fn wire_str(&self) -> (s: &'static str) {
        match self {
            OrderBy::SeriesCount => "series_count",
            OrderBy::Popularity => "popularity",
            OrderBy::Created => "created",
            OrderBy::Name => "name",
            OrderBy::GroupId => "group_id",
        }
    }

    fn is_declared_default(&self) -> (b: bool) {
        match self {
            OrderBy::SeriesCount => true,
            _ => false,
        }
    }
}

impl WireEnum for SortOrder {
    open spec fn wire(&self) -> Seq<char> {
        match self {
            SortOrder::Ascending => "asc"@,
            SortOrder::Descending => "desc"@,
        }
    }

    open spec fn is_default(&self) -> bool {
        *self == SortOrder::Ascending
    }

    proof fn lemma_wire_is_injective(a: Self, b: Self) {
        reveal_strlit("asc");
        reveal_strlit("desc");
        if a.wire() == b.wire() {
            assert(a.wire().len() == b.wire().len());
        }
    }

    proof fn lemma_default_is_unique(a: Self, b: Self) {
    }

    fn wire_str(&self) -> (s: &'static str) {
        match self {
            SortOrder::Ascending => "asc",
            SortOrder::Descending => "desc",
        }
    }

    fn is_declared_default(&self) -> (b: bool) {
        match self {
            SortOrder::Ascending => true,
            SortOrder::Descending => false,
        }
    }
}

impl WireEnum for TagGroupId {
    open spec fn wire(&self) -> Seq<char> {
        match self {
            TagGroupId::Frequency => "freq"@,
            TagGroupId::General => "gen"@,
            TagGroupId::Geography => "geo"@,
            TagGroupId::GeographyType => "geot"@,
            TagGroupId::Release => "rls"@,
            TagGroupId::SeasonalAdjustment => "seas"@,
            TagGroupId::Source => "src"@,
        }
    }

    /// The service assumes no tag group: every variant goes on the wire.
    open spec fn is_default(&self) -> bool {
        false
    }

    proof fn lemma_wire_is_injective(a: Self, b: Self) {
        reveal_strlit("freq");
        reveal_strlit("gen");
        reveal_strlit("geo");
        reveal_strlit("geot");
        reveal_strlit("rls");
        reveal_strlit("seas");
        reveal_strlit("src");
        if a.wire() == b.wire() {
            assert(a.wire().len() == b.wire().len());
            assert(a.wire()[0] == b.wire()[0]);
            assert(a.wire()[1] == b.wire()[1]);
            assert(a.wire()[2] == b.wire()[2]);
        }
    }

    proof fn lemma_default_is_unique(a: Self, b: Self) {
    }

    fn wire_str(&self) -> (s: &'static str) {
        match self {
            TagGroupId::Frequency => "freq",
            TagGroupId::General => "gen",
            TagGroupId::Geography => "geo",
            TagGroupId::GeographyType => "geot",
            TagGroupId::Release => "rls",
            TagGroupId::SeasonalAdjustment => "seas",
            TagGroupId::Source => "src",
        }
    }

    fn is_declared_default(&self) -> (b: bool) {
        false
    }
}

/// The optional parameters of a `release/related_tags` request.
pub struct Builder {
    query: QueryBuilder,
}

impl View for Builder {
    type V = Query;

    closed spec fn view(&self) -> Query {
        self.query@
    }
}

impl Builder {
    /// A builder in which nothing is set. Arguments are neither validated
    /// nor checked for duplicates.
    pub fn new() -> (builder: Builder)
        ensures
            builder@ == Query::empty(),
            builder@.rendered() == Seq::<char>::empty(),
    {
        Builder { query: QueryBuilder::new() }
    }

    /// The arguments set so far as a query-string fragment: the scalar ones
    /// in the order in which they were set, then the tags to match, then the
    /// tags to exclude. Never fails.
    pub fn build(self) -> (fragment: Result<String, String>)
        ensures
            fragment matches Ok(text) && text@ == self@.rendered(),
    {
        Ok(self.query.finalize())
    }

    /// Adds the start of the real-time period, a date written `YYYY-MM-DD`.
    pub fn realtime_start(&mut self, start_date: &str) -> (ret: &mut Builder)
        ensures
            ret@ == old(self)@.with_date(REALTIME_START@, start_date@),
            *final(self) == *final(ret),
    {
        self.query.set_date_param(REALTIME_START, start_date);
        self
    }

    /// Adds the end of the real-time period, a date written `YYYY-MM-DD`.
    pub fn realtime_end(&mut self, end_date: &str) -> (ret: &mut Builder)
        ensures
            ret@ == old(self)@.with_date(REALTIME_END@, end_date@),
            *final(self) == *final(ret),
    {
        self.query.set_date_param(REALTIME_END, end_date);
        self
    }

    /// Adds a tag that results must carry.
    pub fn tag_name(&mut self, tag: &str) -> (ret: &mut Builder)
        ensures
            ret@ == old(self)@.with_item(ListParam::TagNames, tag@),
            *final(self) == *final(ret),
    {
        self.query.add_list_item(ListParam::TagNames, tag);
        self
    }

    /// Adds a tag that results must not carry.
    pub fn exclude_tag(&mut self, tag: &str) -> (ret: &mut Builder)
        ensures
            ret@ == old(self)@.with_item(ListParam::ExcludeTagNames, tag@),
            *final(self) == *final(ret),
    {
        self.query.add_list_item(ListParam::ExcludeTagNames, tag);
        self
    }

    /// Confines the results to one group of tags.
    pub fn tag_group_id(&mut self, id: TagGroupId) -> (ret: &mut Builder)
        ensures
            ret@ == old(self)@.with_enum(TAG_GROUP_ID@, id),
            *final(self) == *final(ret),
    {
        self.query.set_enum_param(TAG_GROUP_ID, &id);
        self
    }

    /// Adds the words to find in tag names, with spaces written as `%20`.
    pub fn search_text(&mut self, search_string: &str) -> (ret: &mut Builder)
        ensures
            ret@ == old(self)@.with_text(TAG_SEARCH_TEXT@, search_string@),
            *final(self) == *final(ret),
    {
        self.query.set_free_text(TAG_SEARCH_TEXT, search_string);
        self
    }

    /// Caps the number of results; a cap above 1000 goes out as 1000.
    pub fn limit(&mut self, num_results: usize) -> (ret: &mut Builder)
        ensures
            ret@ == old(self)@.with_number(NumericParam::Limit, num_results as nat),
            *final(self) == *final(ret),
    {
        self.query.set_numeric_param(NumericParam::Limit, num_results);
        self
    }

    /// Skips the first `ofs` results; the number goes out as it came in.
    pub fn offset(&mut self, ofs: usize) -> (ret: &mut Builder)
        ensures
            ret@ == old(self)@.with_number(NumericParam::Offset, ofs as nat),
            *final(self) == *final(ret),
    {
        self.query.set_numeric_param(NumericParam::Offset, ofs);
        self
    }

    /// Orders the results by an attribute; the attribute that the service
    /// assumes leaves no trace in the query.
    pub fn order_by(&mut self, order: OrderBy) -> (ret: &mut Builder)
        ensures
            ret@ == old(self)@.with_enum(ORDER_BY@, order),
            *final(self) == *final(ret),
    {
        self.query.set_enum_param(ORDER_BY, &order);
        self
    }

    /// Sorts the results in a direction; ascending, which the service
    /// assumes, leaves no trace in the query.
    pub fn sort_order(&mut self, order: SortOrder) -> (ret: &mut Builder)
        ensures
            ret@ == old(self)@.with_enum(SORT_ORDER@, order),
            *final(self) == *final(ret),
    {
        self.query.set_enum_param(SORT_ORDER, &order);
        self
    }
}

} // verus!
