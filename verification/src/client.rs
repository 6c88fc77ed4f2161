//! The dispatcher: it owns the credentials and the base address, composes
//! the address of each request, and routes what came back into a typed
//! result.
//!
//! The library performs no input or output. A call runs in three steps, and
//! the caller does the work between them: a method of the client composes
//! the request; the caller fetches it and hands the reply to [`receive`];
//! the caller decodes the body and hands the outcome to [`conclude`].
use vstd::prelude::*;
use vstd::string::*;
use crate::endpoint::{describe, required_fragment, Endpoint, RequiredValue, ResponseShape};
use crate::error::ClientError;
use crate::query::{Query, QueryBuilder};
use crate::text::{append_decimal, decimal, push_char};

verus! {

/// The address below which the endpoints of the service live.
pub const FRED_BASE_URL: &'static str = "https://api.stlouisfed.org/fred/";

/// What is reported when a client is made without an API key.
pub const MISSING_API_KEY: &'static str = "no API key was given";

/// A composed request: the address to fetch and the shape in which the body
/// of a successful reply is to be decoded.
#[derive(Clone, Debug, PartialEq, Eq)]
pub struct Call {
    pub url: String,
    pub shape: ResponseShape,
}

/// What the transport made of a request.
#[derive(Clone, Debug, PartialEq, Eq)]
pub enum Reply {
    /// No reply arrived: the name was not resolved, the connection was
    /// refused or timed out, the secure channel failed.
    Failed { details: String },
    /// A reply arrived, with this status and this body.
    Received { status: u16, body: String },
}

/// What the decoder made of the body of a successful reply.
#[derive(Clone, Debug, PartialEq, Eq)]
pub enum Decoded<T> {
    /// The body has the declared shape and holds this value.
    Value(T),
    /// The body is the error object of the service, with this code.
    ErrorObject { code: u16 },
    /// The body is malformed or does not have the declared shape.
    Mismatch { details: String },
}

/// Whether a status reports success.
pub open spec fn is_success(status: u16) -> bool {
    200 <= status <= 299
}

/// The address of a request: the base, the path of the endpoint, the
/// credentials, the reply format, then the required parameter and the
/// optional ones.
pub open spec fn request_url(
    base: Seq<char>,
    path: Seq<char>,
    api_key: Seq<char>,
    required: Seq<char>,
    optional: Seq<char>,
) -> Seq<char> {
    base + path + "?api_key="@ + api_key + "&file_type=json"@ + required + optional
}

/// Where a reply leads: a failure of the transport to a transport error, a
/// status outside the 2xx range to an API error that keeps the body, and a
/// status within it to the body, which is then to be decoded.
pub open spec fn reply_outcome(reply: Reply) -> Result<String, ClientError> {
    match reply {
        Reply::Failed { details } => Err(ClientError::Transport { details }),
        Reply::Received { status, body } => if is_success(status) {
            Ok(body)
        } else {
            Err(ClientError::Api { status, body })
        },
    }
}

/// Where the decoding of a body leads: a value to itself, the error object
/// of the service to an API error, and a body of another shape to a decode
/// error. Both errors keep the body.
pub open spec fn conclusion<T>(decoded: Decoded<T>, body: String) -> Result<T, ClientError> {
    match decoded {
        Decoded::Value(value) => Ok(value),
        Decoded::ErrorObject { code } => Err(ClientError::Api { status: code, body }),
        Decoded::Mismatch { details } => Err(ClientError::Decode { details, body }),
    }
}

/// Routes the reply of the transport: `Ok` with the body to decode exactly
/// when a reply arrived with a 2xx status.
pub fn receive(reply: Reply) -> (outcome: Result<String, ClientError>)
    ensures
        outcome == reply_outcome(reply),
        outcome is Ok <==> (reply is Received && is_success(reply->status)),
        reply is Failed ==> (outcome is Err && outcome->Err_0 is Transport),
        (reply is Received && !is_success(reply->status)) ==> (outcome is Err && outcome->Err_0
            is Api),
{
    match reply {
        Reply::Failed { details } => Err(ClientError::Transport { details }),
        Reply::Received { status, body } => {
            if 200 <= status && status <= 299 {
                Ok(body)
            } else {
                Err(ClientError::Api { status, body })
            }
        },
    }
}

/// Routes the outcome of decoding `body`: `Ok` with the value exactly when
/// the body decoded into the declared shape.
pub fn conclude<T>(decoded: Decoded<T>, body: String) -> (outcome: Result<T, ClientError>)
    ensures
        outcome == conclusion(decoded, body),
        outcome is Ok <==> decoded is Value,
        decoded is ErrorObject ==> (outcome is Err && outcome->Err_0 is Api),
        decoded is Mismatch ==> (outcome is Err && outcome->Err_0 is Decode),
{
    match decoded {
        Decoded::Value(value) => Ok(value),
        Decoded::ErrorObject { code } => Err(ClientError::Api { status: code, body }),
        Decoded::Mismatch { details } => Err(ClientError::Decode { details, body }),
    }
}

/// The empty literal holds no character.
proof fn lemma_empty_literal()
    ensures
        ""@ == Seq::<char>::empty(),
{
    reveal_strlit("");
    assert(""@ =~= Seq::<char>::empty());
}

/// The client: the API key and the base address. It holds nothing else and
/// no call changes it.
#[derive(Clone, Debug)]
pub struct FredClient {
    api_key: String,
    base_url: String,
}

impl FredClient {
    /// The API key that goes into every request.
    pub closed spec fn api_key(&self) -> Seq<char> {
        self.api_key@
    }

    /// The address in front of every path.
    pub closed spec fn base_url(&self) -> Seq<char> {
        self.base_url@
    }

    /// The address of a request to `endpoint` with the given text for its
    /// required parameter and the given optional fragment.
    pub open spec fn url(
        &self,
        endpoint: Endpoint,
        required: Option<Seq<char>>,
        optional: Seq<char>,
    ) -> Seq<char> {
        request_url(
            self.base_url(),
            endpoint.descriptor().path@,
            self.api_key(),
            required_fragment(endpoint.descriptor().required.key_text(), required),
            optional,
        )
    }

    /// Makes a client for the service from the API key that the caller
    /// found. Without a key no client is made.
    pub fn new(api_key: Option<String>) -> (client: Result<FredClient, ClientError>)
        ensures
            api_key is Some <==> client is Ok,
            api_key matches Some(key) ==> (client matches Ok(c) && c.api_key() == key@
                && c.base_url() == FRED_BASE_URL@),
            api_key is None ==> (client matches Err(error) && error is Configuration
                && error->Configuration_details@ == MISSING_API_KEY@),
    {
        match api_key {
            Some(key) => Ok(FredClient { api_key: key, base_url: String::from_str(FRED_BASE_URL) }),
            None => Err(ClientError::Configuration { details: String::from_str(MISSING_API_KEY) }),
        }
    }

    /// Makes a client that addresses the endpoints below `base_url`.
    pub fn with_base_url(api_key: String, base_url: String) -> (client: FredClient)
        ensures
            client.api_key() == api_key@,
            client.base_url() == base_url@,
    {
        FredClient { api_key, base_url }
    }

    /// Composes the request to `endpoint`. Where the endpoint declares a
    /// required parameter and `required` holds a value, the value is sent
    /// under the declared key, an id in decimal and a code as it came. The
    /// optional fragment goes last, unchanged.
    pub fn request(&self, endpoint: Endpoint, required: &RequiredValue, optional: &str) -> (call:
        Call)
        ensures
            call.url@ == self.url(endpoint, required.text(), optional@),
            call.shape == endpoint.descriptor().shape,
    {
        let descriptor = describe(endpoint);
        let mut url = String::from_str(self.base_url.as_str());
        url.append(descriptor.path);
        url.append("?api_key=");
        url.append(self.api_key.as_str());
        url.append("&file_type=json");
        let ghost head = url@;
        match descriptor.required.key() {
            Some(key) => {
                match required {
                    RequiredValue::Absent => {},
                    RequiredValue::Id(id) => {
                        push_char(&mut url, '&');
                        url.append(key);
                        push_char(&mut url, '=');
                        append_decimal(&mut url, *id);
                    },
                    RequiredValue::Code(code) => {
                        push_char(&mut url, '&');
                        url.append(key);
                        push_char(&mut url, '=');
                        url.append(code.as_str());
                    },
                }
            },
            None => {},
        }
        assert(url@ =~= head + required_fragment(
            endpoint.descriptor().required.key_text(),
            required.text(),
        ));
        url.append(optional);
        assert(url@ =~= self.url(endpoint, required.text(), optional@));
        Call { url, shape: descriptor.shape }
    }

    /// Composes the request to `endpoint` and finalizes the builder into it.
    /// Without a builder the request carries no optional parameter.
    pub fn call(
        &self,
        endpoint: Endpoint,
        required: &RequiredValue,
        builder: Option<QueryBuilder>,
    ) -> (call: Call)
        ensures
            call.url@ == self.url(
                endpoint,
                required.text(),
                match builder {
                    Some(b) => b@.rendered(),
                    None => Seq::empty(),
                },
            ),
            call.shape == endpoint.descriptor().shape,
    {
        proof {
            lemma_empty_literal();
        }
        match builder {
            Some(b) => {
                let fragment = b.finalize();
                self.request(endpoint, required, fragment.as_str())
            },
            None => self.request(endpoint, required, ""),
        }
    }

    /// Composes the request for the category with the given id.
    pub fn category(&self, category_id: usize) -> (call: Call)
        ensures
            call.url@ == self.url(
                Endpoint::Category,
                Some(decimal(category_id as nat)),
                Seq::empty(),
            ),
            call.shape == ResponseShape::Categories,
    {
        proof {
            lemma_empty_literal();
        }
        self.request(Endpoint::Category, &RequiredValue::Id(category_id), "")
    }

    /// Composes the request for all releases.
    pub fn releases(&self, builder: Option<crate::releases::Builder>) -> (call: Call)
        ensures
            call.url@ == self.url(
                Endpoint::Releases,
                None,
                match builder {
                    Some(b) => b@.rendered(),
                    None => Seq::empty(),
                },
            ),
            call.shape == ResponseShape::Releases,
    {
        proof {
            lemma_empty_literal();
        }
        match builder {
            Some(b) => {
                let fragment = b.build();
                self.request(Endpoint::Releases, &RequiredValue::Absent, fragment.as_str())
            },
            None => self.request(Endpoint::Releases, &RequiredValue::Absent, ""),
        }
    }

    /// Composes the request for the sources of the release with the given id.
    pub fn release_sources(
        &self,
        release_id: usize,
        builder: Option<crate::release::sources::Builder>,
    ) -> (call: Call)
        ensures
            call.url@ == self.url(
                Endpoint::ReleaseSources,
                Some(decimal(release_id as nat)),
                match builder {
                    Some(b) => b@.rendered(),
                    None => Seq::empty(),
                },
            ),
            call.shape == ResponseShape::Sources,
    {
        let required = RequiredValue::Id(release_id);
        proof {
            lemma_empty_literal();
        }
        match builder {
            Some(b) => {
                let fragment = b.build();
                self.request(Endpoint::ReleaseSources, &required, fragment.as_str())
            },
            None => self.request(Endpoint::ReleaseSources, &required, ""),
        }
    }

    /// Composes the request for the tags related to the release with the
    /// given id. The builder names the tags to relate to.
    pub fn release_related_tags(
        &self,
        release_id: usize,
        builder: crate::release::related_tags::Builder,
    ) -> (call: Call)
        ensures
            call.url@ == self.url(
                Endpoint::ReleaseRelatedTags,
                Some(decimal(release_id as nat)),
                builder@.rendered(),
            ),
            call.shape == ResponseShape::Tags,
    {
        let required = RequiredValue::Id(release_id);
        match builder.build() {
            Ok(fragment) => self.request(
                Endpoint::ReleaseRelatedTags,
                &required,
                fragment.as_str(),
            ),
            Err(_) => self.request(Endpoint::ReleaseRelatedTags, &required, ""),
        }
    }

    /// Composes the request for the release of the series with the given
    /// code.
    pub fn series_release(
        &self,
        series_id: &str,
        builder: Option<crate::series::release::Builder>,
    ) -> (call: Call)
        ensures
            call.url@ == self.url(
                Endpoint::SeriesRelease,
                Some(series_id@),
                match builder {
                    Some(b) => b@.rendered(),
                    None => Seq::empty(),
                },
            ),
            call.shape == ResponseShape::Releases,
    {
        let required = RequiredValue::Code(String::from_str(series_id));
        proof {
            lemma_empty_literal();
        }
        match builder {
            Some(b) => {
                let fragment = b.options();
                self.request(Endpoint::SeriesRelease, &required, fragment.as_str())
            },
            None => self.request(Endpoint::SeriesRelease, &required, ""),
        }
    }
}

/// A request without optional parameters is the request with the fragment
/// of a builder in which nothing was set: that fragment is empty and adds
/// nothing to the address.
pub proof fn lemma_untouched_builder_adds_nothing(
    client: FredClient,
    endpoint: Endpoint,
    required: Option<Seq<char>>,
)
    ensures
        Query::empty().rendered() == Seq::<char>::empty(),
        client.url(endpoint, required, Query::empty().rendered()) == client.url(
            endpoint,
            required,
            Seq::empty(),
        ),
{
    crate::query::lemma_empty_query_renders_nothing();
}

} // verus!
