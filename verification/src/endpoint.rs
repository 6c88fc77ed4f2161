//! The registry of endpoints: for each one its path, the shape of its
//! required positional parameter, and the shape of its reply.
use vstd::prelude::*;
use crate::query::pair;
use crate::text::decimal;

verus! {

/// The endpoints that the library can address.
#[derive(Clone, Copy, Debug, PartialEq, Eq, Structural)]
pub enum Endpoint {
    /// One category, by its id.
    Category,
    /// All releases.
    Releases,
    /// The sources of one release, by its id.
    ReleaseSources,
    /// The tags related to one release, by its id.
    ReleaseRelatedTags,
    /// The release of one series, by its code.
    SeriesRelease,
}

/// The shape of the positional parameter that an endpoint requires.
#[derive(Clone, Copy, Debug, PartialEq, Eq)]
pub enum RequiredParamSpec {
    /// The endpoint requires nothing.
    Nothing,
    /// The endpoint requires one numeric id, sent under `key`.
    NumericId { key: &'static str },
    /// The endpoint requires one string code, sent under `key`.
    StringCode { key: &'static str },
}

/// The shape of a reply, named by the list that its one object holds.
#[derive(Clone, Copy, Debug, PartialEq, Eq, Structural)]
pub enum ResponseShape {
    Categories,
    Releases,
    Sources,
    Tags,
}

/// What is known of an endpoint. Descriptors are constants: made on demand,
/// never changed.
#[derive(Clone, Copy, Debug, PartialEq, Eq)]
pub struct Descriptor {
    /// The path of the endpoint below the base address.
    pub path: &'static str,
    /// The positional parameter that the endpoint requires.
    pub required: RequiredParamSpec,
    /// The shape of the reply.
    pub shape: ResponseShape,
}

/// The value given for the required positional parameter of a call.
#[derive(Clone, Debug, PartialEq, Eq)]
pub enum RequiredValue {
    /// No value.
    Absent,
    /// A numeric id, sent in decimal.
    Id(usize),
    /// A string code, sent as it came.
    Code(String),
}

impl ResponseShape {
    /// The name of the list in the reply's object.
    pub open spec fn list_field_text(self) -> Seq<char> {
        match self {
            ResponseShape::Categories => "categories"@,
            ResponseShape::Releases => "releases"@,
            ResponseShape::Sources => "sources"@,
            ResponseShape::Tags => "tags"@,
        }
    }

    /// The name of the list in the reply's object.
    pub fn list_field(&self) -> (name: &'static str)
        ensures
            name@ == self.list_field_text(),
    {
        match self {
            ResponseShape::Categories => "categories",
            ResponseShape::Releases => "releases",
            ResponseShape::Sources => "sources",
            ResponseShape::Tags => "tags",
        }
    }
}

impl RequiredParamSpec {
    /// The wire key of the parameter, where one is required.
    pub open spec fn key_text(self) -> Option<Seq<char>> {
        match self {
            RequiredParamSpec::Nothing => None,
            RequiredParamSpec::NumericId { key } => Some(key@),
            RequiredParamSpec::StringCode { key } => Some(key@),
        }
    }

    /// The wire key of the parameter, where one is required.
    pub fn key(&self) -> (key: Option<&'static str>)
        ensures
            (match key {
                Some(k) => self.key_text() == Some(k@),
                None => self.key_text() is None,
            }),
    {
        match self {
            RequiredParamSpec::Nothing => None,
            RequiredParamSpec::NumericId { key } => Some(*key),
            RequiredParamSpec::StringCode { key } => Some(*key),
        }
    }
}

impl RequiredValue {
    /// The value as it goes on the wire, where there is one.
    pub open spec fn text(&self) -> Option<Seq<char>> {
        match self {
            RequiredValue::Absent => None,
            RequiredValue::Id(id) => Some(decimal(*id as nat)),
            RequiredValue::Code(code) => Some(code@),
        }
    }

    /// Whether the value has the shape that `spec` asks for.
    pub open spec fn fits(&self, spec: RequiredParamSpec) -> bool {
        match spec {
            RequiredParamSpec::Nothing => self is Absent,
            RequiredParamSpec::NumericId { .. } => self is Id,
            RequiredParamSpec::StringCode { .. } => self is Code,
        }
    }
}

/// What the required parameter adds to a request: `&key=value` where the
/// endpoint declares a key and a value was given, else nothing.
pub open spec fn required_fragment(key: Option<Seq<char>>, value: Option<Seq<char>>) -> Seq<char> {
    match (key, value) {
        (Some(k), Some(v)) => seq!['&'] + pair(k, v),
        _ => Seq::empty(),
    }
}

impl Endpoint {
    /// What the registry holds for the endpoint.
    pub open spec fn descriptor(self) -> Descriptor {
        match self {
            Endpoint::Category => Descriptor {
                path: "category",
                required: RequiredParamSpec::NumericId { key: "category_id" },
                shape: ResponseShape::Categories,
            },
            Endpoint::Releases => Descriptor {
                path: "releases",
                required: RequiredParamSpec::Nothing,
                shape: ResponseShape::Releases,
            },
            Endpoint::ReleaseSources => Descriptor {
                path: "release/sources",
                required: RequiredParamSpec::NumericId { key: "release_id" },
                shape: ResponseShape::Sources,
            },
            Endpoint::ReleaseRelatedTags => Descriptor {
                path: "release/related_tags",
                required: RequiredParamSpec::NumericId { key: "release_id" },
                shape: ResponseShape::Tags,
            },
            Endpoint::SeriesRelease => Descriptor {
                path: "series/release",
                required: RequiredParamSpec::StringCode { key: "series_id" },
                shape: ResponseShape::Releases,
            },
        }
    }
}

/// Looks an endpoint up in the registry. Every endpoint has its entry.
pub fn describe(endpoint: Endpoint) -> (descriptor: Descriptor)
    ensures
        descriptor == endpoint.descriptor(),
{
    match endpoint {
        Endpoint::Category => Descriptor {
            path: "category",
            required: RequiredParamSpec::NumericId { key: "category_id" },
            shape: ResponseShape::Categories,
        },
        Endpoint::Releases => Descriptor {
            path: "releases",
            required: RequiredParamSpec::Nothing,
            shape: ResponseShape::Releases,
        },
        Endpoint::ReleaseSources => Descriptor {
            path: "release/sources",
            required: RequiredParamSpec::NumericId { key: "release_id" },
            shape: ResponseShape::Sources,
        },
        Endpoint::ReleaseRelatedTags => Descriptor {
            path: "release/related_tags",
            required: RequiredParamSpec::NumericId { key: "release_id" },
            shape: ResponseShape::Tags,
        },
        Endpoint::SeriesRelease => Descriptor {
            path: "series/release",
            required: RequiredParamSpec::StringCode { key: "series_id" },
            shape: ResponseShape::Releases,
        },
    }
}

/// No two endpoints share a path.
pub proof fn lemma_paths_are_distinct(a: Endpoint, b: Endpoint)
    ensures
        a.descriptor().path@ == b.descriptor().path@ ==> a == b,
{
    reveal_strlit("category");
    reveal_strlit("releases");
    reveal_strlit("release/sources");
    reveal_strlit("release/related_tags");
    reveal_strlit("series/release");
    if a.descriptor().path@ == b.descriptor().path@ {
        assert(a.descriptor().path@.len() == b.descriptor().path@.len());
        assert(a.descriptor().path@[0] == b.descriptor().path@[0]);
    }
}

} // verus!
