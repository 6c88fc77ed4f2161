use fred_rs::query::{ListParam, NumericParam, QueryBuilder, WireEnum, LIMIT_MAXIMUM};
use fred_rs::release::related_tags::{Builder, OrderBy, SortOrder, TagGroupId};

fn related(builder: Builder) -> String {
    builder.build().expect("the builder never fails")
}

#[test]
fn untouched_builder_renders_nothing() {
    assert_eq!(QueryBuilder::new().finalize(), "");
    assert_eq!(related(Builder::new()), "");
    assert_eq!(fred_rs::release::sources::Builder::new().build(), "");
    assert_eq!(fred_rs::releases::Builder::new().build(), "");
    assert_eq!(fred_rs::series::release::Builder::new().options(), "");
    let base = String::from("https://host/fred/series?api_key=K&file_type=json");
    assert_eq!(format!("{}{}", base, QueryBuilder::new().finalize()), base);
}

#[test]
fn dates_go_out_as_they_came() {
    let mut b = Builder::new();
    b.realtime_start("1900-01-01").realtime_end("2000-01-01");
    assert_eq!(related(b), "&realtime_start=1900-01-01&realtime_end=2000-01-01");

    let mut b = fred_rs::series::release::Builder::new();
    b.realtime_end("not a date");
    assert_eq!(b.options(), "&realtime_end=not a date");

    let mut q = QueryBuilder::new();
    q.set_date_param("observation_start", "2000-01-01");
    assert_eq!(q.finalize(), "&observation_start=2000-01-01");
}

#[test]
fn setting_twice_appends_twice() {
    let mut b = fred_rs::release::sources::Builder::new();
    b.realtime_start("2000-01-01").realtime_start("2000-01-01");
    assert_eq!(b.build(), "&realtime_start=2000-01-01&realtime_start=2000-01-01");

    let mut b = fred_rs::releases::Builder::new();
    b.limit(3).limit(4);
    assert_eq!(b.build(), "&limit=3&limit=4");
}

#[test]
fn limit_is_capped_at_one_thousand() {
    assert_eq!(LIMIT_MAXIMUM, 1000);
    for n in [1001usize, 1002, 5000, 123456, usize::MAX] {
        let mut b = Builder::new();
        b.limit(n);
        assert_eq!(related(b), "&limit=1000");
        let mut b = fred_rs::releases::Builder::new();
        b.limit(n);
        assert_eq!(b.build(), "&limit=1000");
    }
}

#[test]
fn limit_up_to_one_thousand_is_exact() {
    for n in 0usize..=1000 {
        let mut b = Builder::new();
        b.limit(n);
        assert_eq!(related(b), format!("&limit={}", n));
    }
    let mut b = fred_rs::releases::Builder::new();
    b.limit(0);
    assert_eq!(b.build(), "&limit=0");
    let mut b = fred_rs::releases::Builder::new();
    b.limit(1000);
    assert_eq!(b.build(), "&limit=1000");
}

#[test]
fn offset_is_not_capped() {
    for n in [0usize, 9, 10, 1000, 1001, 40800, usize::MAX] {
        let mut b = Builder::new();
        b.offset(n);
        assert_eq!(related(b), format!("&offset={}", n));
        let mut b = fred_rs::releases::Builder::new();
        b.offset(n);
        assert_eq!(b.build(), format!("&offset={}", n));
    }
    let mut b = Builder::new();
    b.offset(1001);
    assert_eq!(related(b), "&offset=1001");
}

#[test]
fn numeric_params_know_their_maximum() {
    assert_eq!(NumericParam::Limit.key(), "limit");
    assert_eq!(NumericParam::Offset.key(), "offset");
    assert_eq!(NumericParam::Limit.maximum(), Some(1000));
    assert_eq!(NumericParam::Offset.maximum(), None);
    assert_eq!(NumericParam::Limit.clamp(999), 999);
    assert_eq!(NumericParam::Limit.clamp(1000), 1000);
    assert_eq!(NumericParam::Limit.clamp(1001), 1000);
    assert_eq!(NumericParam::Offset.clamp(1001), 1001);
    let mut q = QueryBuilder::new();
    q.set_numeric_param(NumericParam::Limit, 2000).set_numeric_param(NumericParam::Offset, 2000);
    assert_eq!(q.finalize(), "&limit=1000&offset=2000");
}

#[test]
fn tag_list_is_joined_by_semicolons() {
    let mut b = Builder::new();
    for tag in ["usa", "gdp"] {
        b.tag_name(tag);
    }
    assert_eq!(related(b), "&tag_names=usa;gdp");

    let mut b = Builder::new();
    b.tag_name("usa");
    assert_eq!(related(b), "&tag_names=usa");

    let mut b = Builder::new();
    b.exclude_tag("monthly").exclude_tag("daily").exclude_tag("weekly");
    assert_eq!(related(b), "&exclude_tag_names=monthly;daily;weekly");
}

#[test]
fn every_later_list_value_gets_its_delimiter() {
    let mut b = Builder::new();
    b.tag_name("").tag_name("usa");
    assert_eq!(related(b), "&tag_names=;usa");

    let mut b = Builder::new();
    b.exclude_tag("");
    assert_eq!(related(b), "&exclude_tag_names=");
}

#[test]
fn lists_are_written_behind_the_scalars() {
    let mut b = Builder::new();
    b.exclude_tag("daily").tag_name("usa").limit(5).tag_name("gdp").offset(2);
    assert_eq!(related(b), "&limit=5&offset=2&tag_names=usa;gdp&exclude_tag_names=daily");

    let mut q = QueryBuilder::new();
    q.add_list_item(ListParam::ExcludeTagNames, "a")
        .set_date_param("realtime_start", "2001-02-03")
        .add_list_item(ListParam::TagNames, "b");
    assert_eq!(q.finalize(), "&realtime_start=2001-02-03&tag_names=b&exclude_tag_names=a");
    assert_eq!(ListParam::TagNames.key(), "tag_names");
    assert_eq!(ListParam::ExcludeTagNames.key(), "exclude_tag_names");
}

#[test]
fn free_text_encodes_spaces_only() {
    let mut q = QueryBuilder::new();
    q.set_free_text("name", "gross domestic product");
    assert_eq!(q.finalize(), "&name=gross%20domestic%20product");

    let mut b = Builder::new();
    b.search_text("gross domestic product");
    assert_eq!(related(b), "&tag_search_text=gross%20domestic%20product");

    let mut b = Builder::new();
    b.search_text(" a&b=c%?  d\u{e9} ");
    assert_eq!(related(b), "&tag_search_text=%20a&b=c%?%20%20d\u{e9}%20");

    let mut b = Builder::new();
    b.search_text("");
    assert_eq!(related(b), "&tag_search_text=");
}

#[test]
fn default_variants_leave_no_fragment() {
    let mut b = Builder::new();
    b.sort_order(SortOrder::Ascending).order_by(OrderBy::SeriesCount);
    assert_eq!(related(b), "");

    let mut b = fred_rs::releases::Builder::new();
    b.sort_order(fred_rs::releases::SortOrder::Ascending)
        .order_by(fred_rs::releases::OrderBy::ReleaseId);
    assert_eq!(b.build(), "");

    let mut q = QueryBuilder::new();
    q.set_enum_param("sort_order", &SortOrder::Ascending);
    assert_eq!(q.finalize(), "");
}

#[test]
fn other_variants_leave_one_fragment() {
    let orders = [
        (OrderBy::Popularity, "&order_by=popularity"),
        (OrderBy::Created, "&order_by=created"),
        (OrderBy::Name, "&order_by=name"),
        (OrderBy::GroupId, "&order_by=group_id"),
    ];
    for (order, expected) in orders {
        let mut b = Builder::new();
        b.order_by(order);
        assert_eq!(related(b), expected);
    }

    let mut b = Builder::new();
    b.sort_order(SortOrder::Descending);
    assert_eq!(related(b), "&sort_order=desc");

    let groups = [
        (TagGroupId::Frequency, "&tag_group_id=freq"),
        (TagGroupId::General, "&tag_group_id=gen"),
        (TagGroupId::Geography, "&tag_group_id=geo"),
        (TagGroupId::GeographyType, "&tag_group_id=geot"),
        (TagGroupId::Release, "&tag_group_id=rls"),
        (TagGroupId::SeasonalAdjustment, "&tag_group_id=seas"),
        (TagGroupId::Source, "&tag_group_id=src"),
    ];
    for (group, expected) in groups {
        let mut b = Builder::new();
        b.tag_group_id(group);
        assert_eq!(related(b), expected);
    }

    let orders = [
        (fred_rs::releases::OrderBy::Name, "&order_by=name"),
        (fred_rs::releases::OrderBy::PressRelease, "&order_by=press_release"),
        (fred_rs::releases::OrderBy::RealtimeStart, "&order_by=realtime_start"),
        (fred_rs::releases::OrderBy::RealtimeEnd, "&order_by=realtime_end"),
    ];
    for (order, expected) in orders {
        let mut b = fred_rs::releases::Builder::new();
        b.order_by(order);
        assert_eq!(b.build(), expected);
    }

    let mut b = fred_rs::releases::Builder::new();
    b.sort_order(fred_rs::releases::SortOrder::Descending);
    assert_eq!(b.build(), "&sort_order=desc");
}

fn assert_distinct(wires: &[&str]) {
    for i in 0..wires.len() {
        for j in 0..wires.len() {
            if i != j {
                assert_ne!(wires[i], wires[j]);
            }
        }
    }
}

#[test]
fn wire_strings_are_total_and_distinct() {
    let orders = [
        OrderBy::SeriesCount,
        OrderBy::Popularity,
        OrderBy::Created,
        OrderBy::Name,
        OrderBy::GroupId,
    ];
    let wires: Vec<&str> = orders.iter().map(|o| o.wire_str()).collect();
    assert_eq!(wires, vec!["series_count", "popularity", "created", "name", "group_id"]);
    assert_distinct(&wires);
    assert_eq!(orders.iter().filter(|o| o.is_declared_default()).count(), 1);
    assert!(OrderBy::SeriesCount.is_declared_default());

    let sorts = [SortOrder::Ascending, SortOrder::Descending];
    let wires: Vec<&str> = sorts.iter().map(|o| o.wire_str()).collect();
    assert_eq!(wires, vec!["asc", "desc"]);
    assert_distinct(&wires);
    assert!(SortOrder::Ascending.is_declared_default());
    assert!(!SortOrder::Descending.is_declared_default());

    let groups = [
        TagGroupId::Frequency,
        TagGroupId::General,
        TagGroupId::Geography,
        TagGroupId::GeographyType,
        TagGroupId::Release,
        TagGroupId::SeasonalAdjustment,
        TagGroupId::Source,
    ];
    let wires: Vec<&str> = groups.iter().map(|g| g.wire_str()).collect();
    assert_eq!(wires, vec!["freq", "gen", "geo", "geot", "rls", "seas", "src"]);
    assert_distinct(&wires);
    assert_eq!(groups.iter().filter(|g| g.is_declared_default()).count(), 0);

    let orders = [
        fred_rs::releases::OrderBy::ReleaseId,
        fred_rs::releases::OrderBy::Name,
        fred_rs::releases::OrderBy::PressRelease,
        fred_rs::releases::OrderBy::RealtimeStart,
        fred_rs::releases::OrderBy::RealtimeEnd,
    ];
    let wires: Vec<&str> = orders.iter().map(|o| o.wire_str()).collect();
    assert_eq!(
        wires,
        vec!["release_id", "name", "press_release", "realtime_start", "realtime_end"]
    );
    assert_distinct(&wires);
    assert_eq!(orders.iter().filter(|o| o.is_declared_default()).count(), 1);
    assert!(fred_rs::releases::OrderBy::ReleaseId.is_declared_default());

    let sorts = [fred_rs::releases::SortOrder::Ascending, fred_rs::releases::SortOrder::Descending];
    let wires: Vec<&str> = sorts.iter().map(|o| o.wire_str()).collect();
    assert_eq!(wires, vec!["asc", "desc"]);
    assert!(fred_rs::releases::SortOrder::Ascending.is_declared_default());
}

#[test]
fn a_full_chain_keeps_the_order_of_the_calls() {
    let mut b = Builder::new();
    b.realtime_start("2000-01-01")
        .tag_name("usa")
        .tag_group_id(TagGroupId::Geography)
        .search_text("new york")
        .limit(5)
        .offset(10)
        .order_by(OrderBy::Created)
        .sort_order(SortOrder::Descending)
        .exclude_tag("monthly")
        .realtime_end("2010-01-01");
    assert_eq!(
        related(b),
        "&realtime_start=2000-01-01&tag_group_id=geo&tag_search_text=new%20york&limit=5&offset=10&order_by=created&sort_order=desc&realtime_end=2010-01-01&tag_names=usa&exclude_tag_names=monthly"
    );
}
