//! The accumulator of optional query parameters.
//!
//! A builder collects already-encoded `key=value` fragments in the order in
//! which they were set, and the values of the two list parameters. Nothing is
//! validated and nothing is deduplicated: setting a parameter twice leaves two
//! fragments. Finalizing writes every fragment behind a `&`, the scalar ones
//! first, then one fragment for each list that holds a value.
use vstd::prelude::*;
use vstd::string::*;
use crate::text::{append_decimal, append_encoded, append_joined, decimal, encode_spaces, join, push_char, texts, LIST_DELIMITER};

verus! {

/// The largest result cap that the service documents.
pub const LIMIT_MAXIMUM: usize = 1000;

/// The wire key of the start of the real-time period.
pub const REALTIME_START: &'static str = "realtime_start";

/// The wire key of the end of the real-time period.
pub const REALTIME_END: &'static str = "realtime_end";

/// The wire key of the sort direction.
pub const SORT_ORDER: &'static str = "sort_order";

/// The wire key of the attribute by which results are ordered.
pub const ORDER_BY: &'static str = "order_by";

/// The fragment `key=value`.
pub open spec fn pair(key: Seq<char>, value: Seq<char>) -> Seq<char> {
    key.push('=') + value
}

/// The fragments written one after another, each behind a `&`.
pub open spec fn concat_fragments(fragments: Seq<Seq<char>>) -> Seq<char>
    decreases fragments.len(),
{
    if fragments.len() == 0 {
        Seq::empty()
    } else {
        concat_fragments(fragments.drop_last()).push('&') + fragments.last()
    }
}

/// What a list parameter contributes when the query is rendered: nothing
/// while it holds no value, else the single fragment `key=v1;v2;...`.
pub open spec fn list_fragments(key: Seq<char>, values: Seq<Seq<char>>) -> Seq<Seq<char>> {
    if values.len() == 0 {
        Seq::empty()
    } else {
        seq![pair(key, join(values, LIST_DELIMITER))]
    }
}

/// An enumerated parameter type: a closed set of variants, each with its one
/// wire string, and at most one variant declared to be what the service
/// assumes when the parameter is absent.
pub trait WireEnum: Sized {
    /// The wire string of the variant.
    spec fn wire(&self) -> Seq<char>;

    /// Whether the variant is the declared default of its type.
    spec fn is_default(&self) -> bool;

    /// No two variants share a wire string.
    proof fn lemma_wire_is_injective(a: Self, b: Self)
        ensures
            a.wire() == b.wire() ==> a == b,
    ;

    /// A type declares at most one default.
    proof fn lemma_default_is_unique(a: Self, b: Self)
        ensures
            a.is_default() && b.is_default() ==> a == b,
    ;

    /// The wire string of the variant.
    fn wire_str(&self) -> (s: &'static str)
        ensures
            s@ == self.wire(),
    ;

    /// Whether the variant is the declared default of its type.
    fn is_declared_default(&self) -> (b: bool)
        ensures
            b == self.is_default(),
    ;
}

/// The numeric parameters.
#[derive(Clone, Copy, Debug, PartialEq, Eq, Structural)]
pub enum NumericParam {
    /// The cap on the number of results, `limit`.
    Limit,
    /// The number of results to skip, `offset`.
    Offset,
}

impl NumericParam {
    /// The wire key of the parameter.
    pub open spec fn key_text(self) -> Seq<char> {
        match self {
            NumericParam::Limit => "limit"@,
            NumericParam::Offset => "offset"@,
        }
    }

    /// The documented maximum of the parameter, where it has one.
    pub open spec fn maximum_value(self) -> Option<nat> {
        match self {
            NumericParam::Limit => Some(LIMIT_MAXIMUM as nat),
            NumericParam::Offset => None,
        }
    }

    /// The value that goes on the wire for `n`: `n` itself, but no more than
    /// the documented maximum.
    pub open spec fn clamped(self, n: nat) -> nat {
        match self.maximum_value() {
            Some(most) => if n > most { most } else { n },
            None => n,
        }
    }

    /// The wire key of the parameter.
    pub fn key(&self) -> (k: &'static str)
        ensures
            k@ == self.key_text(),
    {
        match self {
            NumericParam::Limit => "limit",
            NumericParam::Offset => "offset",
        }
    }

    /// The documented maximum of the parameter, where it has one.
    pub fn maximum(&self) -> (most: Option<usize>)
        ensures
            (match most {
                Some(m) => self.maximum_value() == Some(m as nat),
                None => self.maximum_value() is None,
            }),
    {
        match self {
            NumericParam::Limit => Some(LIMIT_MAXIMUM),
            NumericParam::Offset => None,
        }
    }

    /// The value that goes on the wire for `n`.
    pub fn clamp(&self, n: usize) -> (c: usize)
        ensures
            c == self.clamped(n as nat),
    {
        match self.maximum() {
            Some(most) => if n > most { most } else { n },
            None => n,
        }
    }
}

/// The list parameters, in the order in which they are written out.
#[derive(Clone, Copy, Debug, PartialEq, Eq, Structural)]
pub enum ListParam {
    /// The tags that results must carry, `tag_names`.
    TagNames,
    /// The tags that results must not carry, `exclude_tag_names`.
    ExcludeTagNames,
}

impl ListParam {
    /// The wire key of the list.
    pub open spec fn key_text(self) -> Seq<char> {
        match self {
            ListParam::TagNames => "tag_names"@,
            ListParam::ExcludeTagNames => "exclude_tag_names"@,
        }
    }

    /// The wire key of the list.
    pub fn key(&self) -> (k: &'static str)
        ensures
            k@ == self.key_text(),
    {
        match self {
            ListParam::TagNames => "tag_names",
            ListParam::ExcludeTagNames => "exclude_tag_names",
        }
    }
}

/// What a builder holds, as mathematics.
pub struct Query {
    /// The scalar fragments `key=value`, in the order in which they were set.
    pub scalars: Seq<Seq<char>>,
    /// The values added to the tag list, in order.
    pub tag_names: Seq<Seq<char>>,
    /// The values added to the list of excluded tags, in order.
    pub exclude_tags: Seq<Seq<char>>,
}

impl Query {
    /// The query in which nothing was set.
    pub open spec fn empty() -> Query {
        Query { scalars: Seq::empty(), tag_names: Seq::empty(), exclude_tags: Seq::empty() }
    }

    /// The query with one more scalar fragment behind those it has.
    pub open spec fn with_scalar(self, fragment: Seq<char>) -> Query {
        Query { scalars: self.scalars.push(fragment), ..self }
    }

    /// The query after a date was set: the value goes out as it came in.
    pub open spec fn with_date(self, name: Seq<char>, value: Seq<char>) -> Query {
        self.with_scalar(pair(name, value))
    }

    /// The query after an enumerated parameter was set: unchanged for the
    /// declared default, else with the fragment `name=wire`.
    pub open spec fn with_enum<E: WireEnum>(self, name: Seq<char>, variant: E) -> Query {
        if variant.is_default() {
            self
        } else {
            self.with_scalar(pair(name, variant.wire()))
        }
    }

    /// The query after a numeric parameter was set to `n`.
    pub open spec fn with_number(self, param: NumericParam, n: nat) -> Query {
        self.with_scalar(pair(param.key_text(), decimal(param.clamped(n))))
    }

    /// The query after free text was set.
    pub open spec fn with_text(self, name: Seq<char>, text: Seq<char>) -> Query {
        self.with_scalar(pair(name, encode_spaces(text)))
    }

    /// The query with one more value at the end of a list.
    pub open spec fn with_item(self, which: ListParam, value: Seq<char>) -> Query {
        match which {
            ListParam::TagNames => Query { tag_names: self.tag_names.push(value), ..self },
            ListParam::ExcludeTagNames => Query {
                exclude_tags: self.exclude_tags.push(value),
                ..self
            },
        }
    }

    /// Every fragment of the rendered query, in order: the scalar ones, then
    /// the tag list, then the list of excluded tags.
    pub open spec fn fragments(self) -> Seq<Seq<char>> {
        self.scalars + list_fragments(ListParam::TagNames.key_text(), self.tag_names)
            + list_fragments(ListParam::ExcludeTagNames.key_text(), self.exclude_tags)
    }

    /// The query-string fragment that stands for the query.
    pub open spec fn rendered(self) -> Seq<char> {
        concat_fragments(self.fragments())
    }
}

/// Rendering distributes over concatenation of fragment sequences.
pub proof fn lemma_concat_fragments_of_concatenation(
    front: Seq<Seq<char>>,
    back: Seq<Seq<char>>,
)
    ensures
        concat_fragments(front + back) == concat_fragments(front) + concat_fragments(back),
    decreases back.len(),
{
    if back.len() == 0 {
        assert(front + back =~= front);
        assert(concat_fragments(front) + concat_fragments(back) =~= concat_fragments(front));
    } else {
        lemma_concat_fragments_of_concatenation(front, back.drop_last());
        assert((front + back).drop_last() =~= front + back.drop_last());
        assert((front + back).last() == back.last());
        assert(concat_fragments(front + back) =~= concat_fragments(front) + concat_fragments(
            back,
        ));
    }
}

/// The query in which nothing was set renders to the empty text, so that
/// writing it behind any text changes nothing.
pub proof fn lemma_empty_query_renders_nothing()
    ensures
        Query::empty().rendered() == Seq::<char>::empty(),
        forall|base: Seq<char>| #[trigger] (base + Query::empty().rendered()) == base,
{
    let empty = Query::empty();
    assert(empty.fragments() =~= Seq::<Seq<char>>::empty());
    assert(empty.rendered() =~= Seq::<char>::empty());
    assert forall|base: Seq<char>| #[trigger] (base + Query::empty().rendered()) == base by {
        assert(base + Seq::<char>::empty() =~= base);
    }
}

/// A rendered query is empty exactly when it holds no fragment, and one
/// that is not empty starts with `&`.
pub proof fn lemma_rendered_starts_with_ampersand(query: Query)
    ensures
        query.rendered().len() == 0 <==> query.fragments().len() == 0,
        query.rendered().len() > 0 ==> query.rendered()[0] == '&',
{
    lemma_concat_starts_with_ampersand(query.fragments());
}

/// The same of any sequence of fragments.
proof fn lemma_concat_starts_with_ampersand(fragments: Seq<Seq<char>>)
    ensures
        concat_fragments(fragments).len() == 0 <==> fragments.len() == 0,
        concat_fragments(fragments).len() > 0 ==> concat_fragments(fragments)[0] == '&',
    decreases fragments.len(),
{
    if fragments.len() > 0 {
        lemma_concat_starts_with_ampersand(fragments.drop_last());
    }
}

/// While both lists are empty, a scalar fragment lands at the end of the
/// rendered query, behind a `&` of its own, and what was rendered before
/// stays in front of it.
pub proof fn lemma_scalar_is_appended(query: Query, fragment: Seq<char>)
    requires
        query.tag_names.len() == 0,
        query.exclude_tags.len() == 0,
    ensures
        query.with_scalar(fragment).rendered() == query.rendered().push('&') + fragment,
{
    let after = query.with_scalar(fragment);
    assert(query.fragments() =~= query.scalars);
    assert(after.fragments() =~= query.scalars.push(fragment));
    assert(after.fragments().drop_last() =~= query.scalars);
}

/// Setting an enumerated parameter to the declared default of its type
/// leaves the query as it was. Any other variant adds exactly one scalar
/// fragment, `name=wire`, which on a query without list values is rendered
/// last as `&name=wire`.
pub proof fn lemma_enum_param_fragment<E: WireEnum>(query: Query, name: Seq<char>, variant: E)
    ensures
        variant.is_default() ==> query.with_enum(name, variant) == query,
        !variant.is_default() ==> query.with_enum(name, variant).scalars == query.scalars.push(
            pair(name, variant.wire()),
        ),
        !variant.is_default() ==> query.with_enum(name, variant).fragments().len()
            == query.fragments().len() + 1,
        !variant.is_default() && query.tag_names.len() == 0 && query.exclude_tags.len() == 0
            ==> query.with_enum(name, variant).rendered() == query.rendered()
            + (seq!['&'] + name + seq!['='] + variant.wire()),
{
    if !variant.is_default() {
        if query.tag_names.len() == 0 && query.exclude_tags.len() == 0 {
            lemma_scalar_is_appended(query, pair(name, variant.wire()));
            assert(query.rendered().push('&') + pair(name, variant.wire()) =~= query.rendered() + (
                seq!['&'] + name + seq!['='] + variant.wire()));
        }
    }
}

/// Two variants of one type that leave the same fragment under one name are
/// the same variant.
pub proof fn lemma_enum_fragments_are_distinct<E: WireEnum>(name: Seq<char>, a: E, b: E)
    ensures
        pair(name, a.wire()) == pair(name, b.wire()) ==> a == b,
{
    if pair(name, a.wire()) == pair(name, b.wire()) {
        let start = name.len() + 1;
        let left = pair(name, a.wire());
        let right = pair(name, b.wire());
        assert(left.subrange(start as int, left.len() as int) =~= a.wire());
        assert(right.subrange(start as int, right.len() as int) =~= b.wire());
        E::lemma_wire_is_injective(a, b);
    }
}

/// On a fresh builder, a result cap above 1000 is rendered as `&limit=1000`
/// and any other cap as `&limit=` followed by its decimal numeral. An
/// offset is rendered as `&offset=` and its numeral, however large.
pub proof fn lemma_numeric_param_fragment(n: nat)
    ensures
        n > 1000 ==> Query::empty().with_number(NumericParam::Limit, n).rendered()
            == "&limit=1000"@,
        n <= 1000 ==> Query::empty().with_number(NumericParam::Limit, n).rendered() == "&limit="@
            + decimal(n),
        Query::empty().with_number(NumericParam::Offset, n).rendered() == "&offset="@ + decimal(n),
{
    reveal_strlit("limit");
    reveal_strlit("offset");
    reveal_strlit("&limit=");
    reveal_strlit("&offset=");
    reveal_strlit("&limit=1000");
    lemma_empty_query_renders_nothing();
    let limit = pair(NumericParam::Limit.key_text(), decimal(NumericParam::Limit.clamped(n)));
    let offset = pair(NumericParam::Offset.key_text(), decimal(n));
    lemma_scalar_is_appended(Query::empty(), limit);
    lemma_scalar_is_appended(Query::empty(), offset);
    assert(Seq::<char>::empty().push('&') + offset =~= "&offset="@ + decimal(n));
    if n > 1000 {
        assert(decimal(1000) =~= seq!['1', '0', '0', '0']) by {
            reveal_with_fuel(decimal, 4);
        }
        assert(Seq::<char>::empty().push('&') + limit =~= "&limit=1000"@);
    } else {
        assert(Seq::<char>::empty().push('&') + limit =~= "&limit="@ + decimal(n));
    }
}

/// The first value of a list stands alone; every later one stands behind a
/// delimiter of its own.
pub proof fn lemma_list_item_is_appended(values: Seq<Seq<char>>, value: Seq<char>)
    ensures
        join(values.push(value), LIST_DELIMITER) == if values.len() == 0 {
            value
        } else {
            join(values, LIST_DELIMITER).push(LIST_DELIMITER) + value
        },
{
    assert(values.push(value).drop_last() =~= values);
}

/// Nothing is deduplicated: a parameter that is set twice leaves two
/// fragments, the second directly behind the first.
pub proof fn lemma_setting_twice_keeps_both(query: Query, fragment: Seq<char>)
    ensures
        query.with_scalar(fragment).with_scalar(fragment).scalars == query.scalars + seq![
            fragment,
            fragment,
        ],
{
    assert(query.with_scalar(fragment).with_scalar(fragment).scalars =~= query.scalars + seq![
        fragment,
        fragment,
    ]);
}

/// It makes no difference whether a list value is added before or after a
/// scalar parameter is set: the lists are written out behind the scalars.
pub proof fn lemma_lists_follow_scalars(
    query: Query,
    which: ListParam,
    value: Seq<char>,
    fragment: Seq<char>,
)
    ensures
        query.with_item(which, value).with_scalar(fragment) == query.with_scalar(
            fragment,
        ).with_item(which, value),
{
}

/// A builder of the optional part of a request.
pub struct QueryBuilder {
    scalars: Vec<String>,
    tag_names: Vec<String>,
    exclude_tags: Vec<String>,
}

impl View for QueryBuilder {
    type V = Query;

    closed spec fn view(&self) -> Query {
        Query {
            scalars: texts(self.scalars@),
            tag_names: texts(self.tag_names@),
            exclude_tags: texts(self.exclude_tags@),
        }
    }
}

/// Appends `&` and the fragment `key=` followed by the joined `values` to
/// `out`, unless there is no value.
fn flush_list(out: &mut String, key: &str, values: &Vec<String>)
    ensures
        final(out)@ == old(out)@ + concat_fragments(list_fragments(key@, texts(values@))),
{
    if values.len() > 0 {
        push_char(out, '&');
        out.append(key);
        push_char(out, '=');
        append_joined(out, values);
        proof {
            let only = list_fragments(key@, texts(values@));
            assert(only.drop_last() =~= Seq::<Seq<char>>::empty());
            assert(concat_fragments(only.drop_last()) =~= Seq::<char>::empty());
            assert(out@ =~= old(out)@ + concat_fragments(only));
        }
    } else {
        assert(out@ =~= old(out)@ + concat_fragments(list_fragments(key@, texts(values@))));
    }
}

impl QueryBuilder {
    /// A builder in which nothing is set.
    pub fn new() -> (builder: QueryBuilder)
        ensures
            builder@ == Query::empty(),
            builder@.rendered() == Seq::<char>::empty(),
    {
        proof {
            lemma_empty_query_renders_nothing();
        }
        let builder = QueryBuilder {
            scalars: Vec::new(),
            tag_names: Vec::new(),
            exclude_tags: Vec::new(),
        };
        assert(builder@.scalars =~= Seq::empty());
        assert(builder@.tag_names =~= Seq::empty());
        assert(builder@.exclude_tags =~= Seq::empty());
        builder
    }

    /// Sets a date: appends the fragment `name=value`. The value is expected
    /// to read `YYYY-MM-DD` and goes out as it came in.
    pub fn set_date_param(&mut self, name: &str, value: &str) -> (ret: &mut QueryBuilder)
        ensures
            ret@ == old(self)@.with_date(name@, value@),
            *final(self) == *final(ret),
    {
        let mut fragment = String::from_str(name);
        push_char(&mut fragment, '=');
        fragment.append(value);
        self.scalars.push(fragment);
        assert(self@.scalars =~= old(self)@.scalars.push(pair(name@, value@)));
        self
    }

    /// Sets an enumerated parameter: appends the fragment `name=wire` with
    /// the wire string of `variant`, or nothing at all where `variant` is the
    /// declared default of its type.
    pub fn set_enum_param<E: WireEnum>(&mut self, name: &str, variant: &E) -> (ret:
        &mut QueryBuilder)
        ensures
            ret@ == old(self)@.with_enum(name@, *variant),
            *final(self) == *final(ret),
    {
        if !variant.is_declared_default() {
            let mut fragment = String::from_str(name);
            push_char(&mut fragment, '=');
            fragment.append(variant.wire_str());
            self.scalars.push(fragment);
            assert(self@.scalars =~= old(self)@.scalars.push(pair(name@, variant.wire())));
        }
        self
    }

    /// Sets a numeric parameter: appends the fragment `key=n` in decimal,
    /// where `n` is first brought down to the documented maximum of the
    /// parameter if it has one.
    pub fn set_numeric_param(&mut self, param: NumericParam, n: usize) -> (ret: &mut QueryBuilder)
        ensures
            ret@ == old(self)@.with_number(param, n as nat),
            *final(self) == *final(ret),
    {
        let mut fragment = String::from_str(param.key());
        push_char(&mut fragment, '=');
        append_decimal(&mut fragment, param.clamp(n));
        self.scalars.push(fragment);
        assert(self@.scalars =~= old(self)@.scalars.push(
            pair(param.key_text(), decimal(param.clamped(n as nat))),
        ));
        self
    }

    /// Adds a value to the end of a list parameter.
    pub fn add_list_item(&mut self, which: ListParam, value: &str) -> (ret: &mut QueryBuilder)
        ensures
            ret@ == old(self)@.with_item(which, value@),
            *final(self) == *final(ret),
    {
        let item = String::from_str(value);
        match which {
            ListParam::TagNames => {
                self.tag_names.push(item);
                assert(self@.tag_names =~= old(self)@.tag_names.push(value@));
            },
            ListParam::ExcludeTagNames => {
                self.exclude_tags.push(item);
                assert(self@.exclude_tags =~= old(self)@.exclude_tags.push(value@));
            },
        }
        self
    }

    /// Sets free text: appends the fragment `name=text` with each space of
    /// `text` written as `%20` and every other character as it came in.
    pub fn set_free_text(&mut self, name: &str, text: &str) -> (ret: &mut QueryBuilder)
        ensures
            ret@ == old(self)@.with_text(name@, text@),
            *final(self) == *final(ret),
    {
        let mut fragment = String::from_str(name);
        push_char(&mut fragment, '=');
        append_encoded(&mut fragment, text);
        self.scalars.push(fragment);
        assert(self@.scalars =~= old(self)@.scalars.push(pair(name@, encode_spaces(text@))));
        self
    }

    /// Renders the query: every scalar fragment behind a `&`, in the order
    /// in which they were set, then one fragment for each list that holds a
    /// value. A builder in which nothing was set renders to the empty string.
    pub fn finalize(self) -> (fragment: String)
        ensures
            fragment@ == self@.rendered(),
            fragment@.len() == 0 <==> self@.fragments().len() == 0,
            fragment@.len() > 0 ==> fragment@[0] == '&',
    {
        proof {
            lemma_rendered_starts_with_ampersand(self@);
        }
        let mut out = String::new();
        let ghost scalars = texts(self.scalars@);
        let mut i: usize = 0;
        while i < self.scalars.len()
            invariant
                i <= self.scalars.len(),
                scalars == texts(self.scalars@),
                out@ == concat_fragments(scalars.take(i as int)),
            decreases self.scalars.len() - i,
        {
            proof {
                assert(scalars.take(i + 1).drop_last() =~= scalars.take(i as int));
                assert(scalars.take(i + 1).last() == self.scalars@[i as int]@);
            }
            push_char(&mut out, '&');
            out.append(self.scalars[i].as_str());
            i += 1;
        }
        proof {
            assert(scalars.take(self.scalars.len() as int) =~= scalars);
        }
        flush_list(&mut out, ListParam::TagNames.key(), &self.tag_names);
        flush_list(&mut out, ListParam::ExcludeTagNames.key(), &self.exclude_tags);
        proof {
            let tags = list_fragments(ListParam::TagNames.key_text(), self@.tag_names);
            let excluded = list_fragments(
                ListParam::ExcludeTagNames.key_text(),
                self@.exclude_tags,
            );
            lemma_concat_fragments_of_concatenation(scalars, tags);
            lemma_concat_fragments_of_concatenation(scalars + tags, excluded);
        }
        out
    }
}

} // verus!
