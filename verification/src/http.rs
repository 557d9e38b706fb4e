//! The HTTP client, up to the point where a request leaves the process.
//!
//! A client holds a base URL and default headers. For each call it works out
//! the request: the method, the endpoint joined to the base URL, the default
//! headers with the call's own headers laid over them, and the body. Sending
//! the request is left to the caller.
//!
//! URLs are parsed and joined by the `url` crate and headers are kept in the
//! `http` crate's `HeaderMap`, both as `reqwest` hands them on.

use reqwest::header::HeaderMap;
use reqwest::header::HeaderValue;
use reqwest::Url;
use vstd::prelude::*;

verus! {

/// `http::HeaderMap`. What a map holds is spoken of as `header_fields`.
#[verifier::external_type_specification]
#[verifier::external_body]
#[verifier::reject_recursive_types(T)]
pub struct ExHeaderMap<T>(HeaderMap<T>);

/// `http::HeaderValue`, the kind of value that the header maps here hold.
#[verifier::external_type_specification]
#[verifier::external_body]
pub struct ExHeaderValue(HeaderValue);

/// Why no request could be made.
#[derive(Clone, Copy, Debug, PartialEq, Eq, Structural)]
pub enum HttpError {
    /// The base URL does not parse, or the endpoint cannot be joined to it.
    InvalidUrl,
    /// The header map did not take one of the call's headers.
    HeadersRejected,
}

/// The request methods that the client offers.
#[derive(Clone, Copy, Debug, PartialEq, Eq, Structural)]
pub enum Method {
    Get,
    Post,
    Put,
    Delete,
    Head,
    Patch,
}

/// One header field as a mathematical value.
pub struct FieldView {
    /// The bytes of the name, which a header map keeps in lower case.
    pub name: Seq<u8>,
    /// The bytes of the value.
    pub value: Seq<u8>,
    /// Whether the value is marked as not to be shown in logs.
    pub sensitive: bool,
}

/// A header map that holds no more fields than this takes one more for
/// sure. A fuller map may refuse: its table cannot grow without end.
pub const SURE_ROOM: usize = 6553;

/// The fields of a header map in the order in which the map is walked: a
/// name comes once for each of its values.
pub uninterp spec fn header_fields(headers: HeaderMap) -> Seq<FieldView>;

/// The serialisation of the URL that `Url::parse` makes of the input, or
/// `None` where it reports an error.
pub uninterp spec fn parsed_url(input: Seq<char>) -> Option<Seq<char>>;

/// The serialisation of the URL that `Url::join` makes of the reference and
/// the URL with the serialisation `base`, or `None` where `base` is no URL
/// or the join reports an error.
pub uninterp spec fn joined_url(base: Seq<char>, reference: Seq<char>) -> Option<Seq<char>>;

/// The values that the fields give to `name`, in order, each with its mark.
pub open spec fn values_of(fields: Seq<FieldView>, name: Seq<u8>) -> Seq<(Seq<u8>, bool)>
    decreases fields.len(),
{
    if fields.len() == 0 {
        Seq::empty()
    } else {
        let front = values_of(fields.drop_last(), name);
        if fields.last().name == name {
            front.push((fields.last().value, fields.last().sensitive))
        } else {
            front
        }
    }
}

/// What a name has after the extra fields were laid over the defaults: the
/// last value that the extras give it and no other, or, where they give it
/// none, all that the defaults give it.
pub open spec fn merged_values(defaults: Seq<FieldView>, extras: Seq<FieldView>, name: Seq<u8>) -> Seq<
    (Seq<u8>, bool),
> {
    if values_of(extras, name).len() > 0 {
        seq![values_of(extras, name).last()]
    } else {
        values_of(defaults, name)
    }
}

/// Whether `result` is `defaults` with `extras` laid over them, name by name.
/// The order in which different names follow each other is left open.
pub open spec fn is_merge_of(
    result: Seq<FieldView>,
    defaults: Seq<FieldView>,
    extras: Seq<FieldView>,
) -> bool {
    forall|name: Seq<u8>| #[trigger]
        values_of(result, name) == merged_values(defaults, extras, name)
}

/// The fields of headers that may be absent.
pub open spec fn fields_of_option(headers: Option<HeaderMap>) -> Seq<FieldView> {
    match headers {
        Some(map) => header_fields(map),
        None => Seq::empty(),
    }
}

/// The text of a string that may be absent.
pub open spec fn text_of_option(text: Option<String>) -> Option<Seq<char>> {
    match text {
        Some(text) => Some(text@),
        None => None,
    }
}

/// The text of a string slice that may be absent.
pub open spec fn text_of_slice(text: Option<&str>) -> Option<Seq<char>> {
    match text {
        Some(text) => Some(text@),
        None => None,
    }
}

/// `Url::parse`, with the URL handed back as its serialisation and the
/// error, if any, as `None`.
#[verifier::external_body]
fn parse_url(input: &str) -> (url: Option<String>)
    ensures
        text_of_option(url) == parsed_url(input@),
{
    Url::parse(input).ok().map(String::from)
}

/// `Url::join` on the URL that `base` is the serialisation of, with the
/// result handed back as its serialisation and an error as `None`.
#[verifier::external_body]
fn join_url(base: &str, reference: &str) -> (url: Option<String>)
    ensures
        text_of_option(url) == joined_url(base@, reference@),
{
    let Ok(base) = Url::parse(base) else {
        return None;
    };
    base.join(reference).ok().map(String::from)
}

/// `HeaderMap::new`: a map without fields.
#[verifier::external_body]
fn empty_headers() -> (headers: HeaderMap)
    ensures
        header_fields(headers) == Seq::<FieldView>::empty(),
{
    HeaderMap::new()
}

/// `HeaderMap::clone`: a map with the same fields in the same order.
#[verifier::external_body]
fn copy_headers(headers: &HeaderMap) -> (copy: HeaderMap)
    ensures
        header_fields(copy) == header_fields(*headers),
{
    headers.clone()
}

/// `HeaderMap::len`: the number of fields, a name counted once for each of
/// its values.
#[verifier::external_body]
fn field_count(headers: &HeaderMap) -> (count: usize)
    ensures
        count == header_fields(*headers).len(),
{
    headers.len()
}

/// `HeaderMap::try_insert` of clones of the name and the value that
/// `HeaderMap::iter` on `source` yields at place `index`.
///
/// The insert is refused only by a map whose table cannot grow. A table has
/// a power of two as its number of slots and 32768 at most, so that takes a
/// table of 32768 slots and either 24576 names in it or, after many
/// collisions, a fifth of the slots, which is 6554 names: never a map of
/// `SURE_ROOM` fields or fewer. Of a fuller map nothing is said either way.
///
/// Where the pair is taken its name has this one value, mark included,
/// every other name has what it had, and the map has grown by one field at
/// most. Where it is refused the map holds what it held.
#[verifier::external_body]
fn put_from(headers: &mut HeaderMap, source: &HeaderMap, index: usize) -> (done: bool)
    requires
        index < header_fields(*source).len(),
    ensures
        header_fields(*old(headers)).len() <= SURE_ROOM ==> done,
        done ==> forall|name: Seq<u8>| #[trigger]
            values_of(header_fields(*final(headers)), name) == if name == header_fields(
                *source,
            )[index as int].name {
                seq![
                    (
                        header_fields(*source)[index as int].value,
                        header_fields(*source)[index as int].sensitive,
                    ),
                ]
            } else {
                values_of(header_fields(*old(headers)), name)
            },
        done ==> header_fields(*final(headers)).len() <= header_fields(*old(headers)).len() + 1,
        !done ==> header_fields(*final(headers)) == header_fields(*old(headers)),
{
    let Some((name, value)) = source.iter().nth(index) else {
        return false;
    };
    headers.try_insert(name.clone(), value.clone()).is_ok()
}

/// A request that is ready to be sent.
pub struct Request {
    pub method: Method,
    /// The full URL.
    pub url: String,
    pub headers: HeaderMap,
    pub body: Option<String>,
}

/// An HTTP client: a base URL and the headers that every request carries
/// unless the call says otherwise.
pub struct HttpClient {
    base_url: String,
    default_headers: Option<HeaderMap>,
}

impl HttpClient {
    /// The base URL, in the form the parser gave it.
    pub closed spec fn base(&self) -> Seq<char> {
        self.base_url@
    }

    /// The default header fields.
    pub closed spec fn defaults(&self) -> Seq<FieldView> {
        fields_of_option(self.default_headers)
    }

    /// A client for `base_url`, if that is a URL.
    pub fn new(base_url: &str, default_headers: Option<HeaderMap>) -> (client: Result<
        Self,
        HttpError,
    >)
        ensures
            client is Ok <==> parsed_url(base_url@) is Some,
            client matches Ok(c) ==> parsed_url(base_url@) == Some(c.base()) && c.defaults()
                == fields_of_option(default_headers),
            client matches Err(e) ==> e == HttpError::InvalidUrl,
    {
        match parse_url(base_url) {
            Some(base_url) => Ok(HttpClient { base_url, default_headers }),
            None => Err(HttpError::InvalidUrl),
        }
    }

    /// The base URL as text.
    pub fn base_url(&self) -> (url: &str)
        ensures
            url@ == self.base(),
    {
        self.base_url.as_str()
    }

    /// The default headers with `headers` laid over them: a name that
    /// `headers` mentions gets the last value it has there, every other name
    /// keeps its default values. This succeeds whenever the two maps have
    /// `SURE_ROOM` fields or fewer between them, and always without extra
    /// headers; beyond that it fails where the header map refuses a field.
    pub fn merge_headers(&self, headers: Option<HeaderMap>) -> (merged: Result<
        HeaderMap,
        HttpError,
    >)
        ensures
            self.defaults().len() + fields_of_option(headers).len() <= SURE_ROOM ==> merged is Ok,
            merged matches Ok(map) ==> is_merge_of(
                header_fields(map),
                self.defaults(),
                fields_of_option(headers),
            ),
            merged matches Err(e) ==> {
                &&& e == HttpError::HeadersRejected
                &&& fields_of_option(headers).len() > 0
                &&& self.defaults().len() + fields_of_option(headers).len() > SURE_ROOM
            },
    {
        let mut merged = match &self.default_headers {
            Some(defaults) => copy_headers(defaults),
            None => empty_headers(),
        };
        let ghost defaults = self.defaults();
        let ghost extras = fields_of_option(headers);
        if let Some(extra) = headers {
            let count = field_count(&extra);
            let mut i: usize = 0;
            assert(extras.take(0) =~= Seq::<FieldView>::empty());
            while i < count
                invariant
                    0 <= i <= count,
                    count == extras.len(),
                    extras == header_fields(extra),
                    extras == fields_of_option(headers),
                    defaults == self.defaults(),
                    header_fields(merged).len() <= defaults.len() + i,
                    is_merge_of(header_fields(merged), defaults, extras.take(i as int)),
                decreases count - i,
            {
                let ghost before = header_fields(merged);
                let ghost field = extras[i as int];
                if !put_from(&mut merged, &extra, i) {
                    return Err(HttpError::HeadersRejected);
                }
                proof {
                    let seen = extras.take(i as int);
                    let next = extras.take(i + 1);
                    assert(next.drop_last() =~= seen);
                    assert(next.last() == field);
                    assert forall|name: Seq<u8>| #[trigger]
                        values_of(header_fields(merged), name) == merged_values(
                            defaults,
                            next,
                            name,
                        ) by {
                        assert(values_of(before, name) == merged_values(defaults, seen, name));
                        if name == field.name {
                            assert(values_of(next, name) == values_of(seen, name).push(
                                (field.value, field.sensitive),
                            ));
                        } else {
                            assert(values_of(next, name) == values_of(seen, name));
                        }
                    }
                }
                i = i + 1;
            }
            assert(extras.take(i as int) =~= extras);
        } else {
            assert(forall|name: Seq<u8>| #[trigger]
                values_of(extras, name) == Seq::<(Seq<u8>, bool)>::empty());
        }
        Ok(merged)
    }

    /// The request for one call: the endpoint joined to the base URL, then
    /// the headers merged.
    pub fn request(
        &self,
        method: Method,
        endpoint: &str,
        headers: Option<HeaderMap>,
        body: Option<&str>,
    ) -> (request: Result<Request, HttpError>)
        ensures
            self.plans(method, endpoint@, fields_of_option(headers), text_of_slice(body), request),
    {
        let url = match join_url(self.base_url.as_str(), endpoint) {
            Some(url) => url,
            None => {
                return Err(HttpError::InvalidUrl);
            },
        };
        let headers = match self.merge_headers(headers) {
            Ok(headers) => headers,
            Err(error) => {
                return Err(error);
            },
        };
        let body = match body {
            Some(text) => Some(text.to_owned()),
            None => None,
        };
        Ok(Request { method, url, headers, body })
    }

    /// Whether `request` is what this client makes of a call. An endpoint
    /// that cannot be joined to the base URL gives `InvalidUrl` before the
    /// headers are looked at. Otherwise the request has the method, the
    /// joined URL, the body and the merged headers of the call; the one other
    /// outcome is `HeadersRejected`, and only where the call has headers and
    /// they and the defaults are more than `SURE_ROOM` fields.
    pub open spec fn plans(
        &self,
        method: Method,
        endpoint: Seq<char>,
        extras: Seq<FieldView>,
        body: Option<Seq<char>>,
        request: Result<Request, HttpError>,
    ) -> bool {
        match joined_url(self.base(), endpoint) {
            None => request matches Err(e) && e == HttpError::InvalidUrl,
            Some(url) => match request {
                Ok(made) => {
                    &&& made.method == method
                    &&& made.url@ == url
                    &&& text_of_option(made.body) == body
                    &&& is_merge_of(header_fields(made.headers), self.defaults(), extras)
                },
                Err(e) => {
                    &&& e == HttpError::HeadersRejected
                    &&& extras.len() > 0
                    &&& self.defaults().len() + extras.len() > SURE_ROOM
                },
            },
        }
    }

    /// A GET request for `endpoint`. It has no body.
    pub fn get(&self, endpoint: &str, headers: Option<HeaderMap>) -> (request: Result<
        Request,
        HttpError,
    >)
        ensures
            self.plans(Method::Get, endpoint@, fields_of_option(headers), None, request),
    {
        self.request(Method::Get, endpoint, headers, None)
    }

    /// A POST request for `endpoint`, with the body if there is one.
    pub fn post(&self, endpoint: &str, headers: Option<HeaderMap>, body: Option<&str>) -> (request:
        Result<Request, HttpError>)
        ensures
            self.plans(
                Method::Post,
                endpoint@,
                fields_of_option(headers),
                text_of_slice(body),
                request,
            ),
    {
        self.request(Method::Post, endpoint, headers, body)
    }

    /// A PUT request for `endpoint`, with the body if there is one.
    pub fn put(&self, endpoint: &str, headers: Option<HeaderMap>, body: Option<&str>) -> (request:
        Result<Request, HttpError>)
        ensures
            self.plans(
                Method::Put,
                endpoint@,
                fields_of_option(headers),
                text_of_slice(body),
                request,
            ),
    {
        self.request(Method::Put, endpoint, headers, body)
    }

    /// A DELETE request for `endpoint`. It has no body.
    pub fn delete(&self, endpoint: &str, headers: Option<HeaderMap>) -> (request: Result<
        Request,
        HttpError,
    >)
        ensures
            self.plans(Method::Delete, endpoint@, fields_of_option(headers), None, request),
    {
        self.request(Method::Delete, endpoint, headers, None)
    }

    /// A HEAD request for `endpoint`. It has no body.
    pub fn head(&self, endpoint: &str, headers: Option<HeaderMap>) -> (request: Result<
        Request,
        HttpError,
    >)
        ensures
            self.plans(Method::Head, endpoint@, fields_of_option(headers), None, request),
    {
        self.request(Method::Head, endpoint, headers, None)
    }

    /// A PATCH request for `endpoint`, with the body if there is one.
    pub fn patch(&self, endpoint: &str, headers: Option<HeaderMap>, body: Option<&str>) -> (request:
        Result<Request, HttpError>)
        ensures
            self.plans(
                Method::Patch,
                endpoint@,
                fields_of_option(headers),
                text_of_slice(body),
                request,
            ),
    {
        self.request(Method::Patch, endpoint, headers, body)
    }
}

} // verus!
