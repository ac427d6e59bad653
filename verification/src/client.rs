//! The API client: what to send for each operation, and what an answer means.
//!
//! The client performs no I/O. For each operation one method describes the
//! request (method, URL, authorization, body), and one function reads the
//! answer (status and body) into a typed result or a classified error.

use vstd::prelude::*;
use vstd::string::*;
use vstd::utf8::*;
use crate::credentials::Credentials;
use crate::error::{TwitterError, is_success, is_api_error, is_decode_error, api_error};
use crate::json::{Json, JsonValue, parsed_json, parse_json};
use crate::params::{Pair, param_bytes};
use crate::response::{
    FromJson, OauthResponse, TwitterCreateResponseData, TwitterDeleteResponseData, TwitterFeed,
    TwitterHomeItem, TwitterLikeResponseData, TwitterResponse, TwitterUser, data_of,
    optional_view,
};
use crate::signer::{authorization_bytes, build_authorization};
use crate::text::{ascii_chars, decimal_string, decimal_text};

verus! {

/// The HTTP methods that the API uses.
#[derive(Debug, PartialEq, Eq, Clone, Copy)]
pub enum Method {
    Get,
    Post,
    Delete,
}

/// How a request proves who sends it.
#[derive(Debug, PartialEq, Eq)]
pub enum Authorization {
    /// The value of an OAuth 1.0a `Authorization` header.
    OAuth(String),
    /// A bearer token.
    Bearer(String),
    /// HTTP basic authentication: user name and password.
    Basic(String, String),
}

/// One request, ready to be sent.
#[derive(Debug, PartialEq, Eq)]
pub struct Request {
    pub method: Method,
    pub url: String,
    pub authorization: Authorization,
    pub body: Option<Json>,
}

/// The client of one session: the credentials and whether to report what
/// it does.
pub struct Client<'c> {
    credentials: &'c Credentials,
    debug: bool,
}

impl Method {
    /// The name of the method as it is signed and sent.
    pub open spec fn name_text(self) -> Seq<char> {
        match self {
            Method::Get => "GET"@,
            Method::Post => "POST"@,
            Method::Delete => "DELETE"@,
        }
    }

    /// The name of the method as it is signed and sent.
    pub fn name(&self) -> (name: &'static str)
        ensures
            name@ == self.name_text(),
    {
        match self {
            Method::Get => "GET",
            Method::Post => "POST",
            Method::Delete => "DELETE",
        }
    }
}

/// Whether an authorization is the OAuth header for the given request.
pub open spec fn signed(
    a: Authorization,
    c: Credentials,
    method: Method,
    url: Seq<char>,
    request: Seq<Pair>,
    nonce: Seq<char>,
    timestamp: Seq<char>,
) -> bool {
    a matches Authorization::OAuth(h) && encode_utf8(h@) == authorization_bytes(
        c,
        encode_utf8(method.name_text()),
        encode_utf8(url),
        request,
        encode_utf8(nonce),
        encode_utf8(timestamp),
    )
}

/// The body of a request that creates a post: the text, and the post it
/// replies to where there is one.
pub open spec fn post_body(message: Seq<char>, reply_to: Option<Seq<char>>) -> JsonValue {
    match reply_to {
        Some(id) => JsonValue::Object(
            seq![
                ("text"@, JsonValue::Text(message)),
                (
                    "reply"@,
                    JsonValue::Object(seq![("in_reply_to_tweet_id"@, JsonValue::Text(id))]),
                ),
            ],
        ),
        None => JsonValue::Object(seq![("text"@, JsonValue::Text(message))]),
    }
}

/// The body of a request that likes a post.
pub open spec fn like_body(tweet_id: Seq<char>) -> JsonValue {
    JsonValue::Object(seq![("tweet_id"@, JsonValue::Text(tweet_id))])
}

/// The query parameter of the legacy timeline.
pub open spec fn feed_params(count: i32) -> Seq<Pair> {
    seq![("count".spec_bytes(), decimal_text(count as int))]
}

/// The query parameters of the request for one's own user.
pub open spec fn me_params() -> Seq<Pair> {
    seq![
        ("expansions".spec_bytes(), "pinned_tweet_id".spec_bytes()),
        ("user.fields".spec_bytes(), "created_at".spec_bytes()),
    ]
}

/// An object with one member that is a text.
fn text_object(name: &str, value: &str) -> (out: Json)
    ensures
        out.value() == JsonValue::Object(seq![(name@, JsonValue::Text(value@))]),
{
    let mut fields: Vec<(String, Json)> = Vec::new();
    fields.push((name.to_owned(), Json::Text(value.to_owned())));
    let out = Json::Object(fields);
    proof {
        reveal_with_fuel(Json::value, 2);
        assert(out.value()->Object_0 =~= seq![(name@, JsonValue::Text(value@))]);
    }
    out
}

/// The body of a request that creates a post.
pub fn create_body(message: &str, in_reply_to_tweet_id: &Option<String>) -> (out: Json)
    ensures
        out.value() == post_body(message@, optional_view(*in_reply_to_tweet_id)),
{
    let mut fields: Vec<(String, Json)> = Vec::new();
    fields.push(("text".to_owned(), Json::Text(message.to_owned())));
    match in_reply_to_tweet_id {
        Some(id) => {
            let reply = text_object("in_reply_to_tweet_id", id.as_str());
            fields.push(("reply".to_owned(), reply));
            let out = Json::Object(fields);
            proof {
                reveal_with_fuel(Json::value, 2);
                assert(out.value()->Object_0 =~= seq![
                    ("text"@, JsonValue::Text(message@)),
                    (
                        "reply"@,
                        JsonValue::Object(seq![("in_reply_to_tweet_id"@, JsonValue::Text(id@))]),
                    ),
                ]);
            }
            out
        },
        None => {
            let out = Json::Object(fields);
            proof {
                reveal_with_fuel(Json::value, 2);
                assert(out.value()->Object_0 =~= seq![("text"@, JsonValue::Text(message@))]);
            }
            out
        },
    }
}

impl<'c> Client<'c> {
    /// The credentials that sign this client's requests.
    pub closed spec fn credentials(self) -> Credentials {
        *self.credentials
    }

    /// Whether this client reports what it does.
    pub closed spec fn debugging(self) -> bool {
        self.debug
    }

    /// A client for given credentials.
    pub fn new(credentials: &'c Credentials, debug: bool) -> (client: Self)
        ensures
            client.credentials() == *credentials,
            client.debugging() == debug,
    {
        Client { credentials, debug }
    }

    /// Whether this client reports what it does.
    pub fn is_debug(&self) -> (debug: bool)
        ensures
            debug == self.debugging(),
    {
        self.debug
    }

    /// A request signed with this client's credentials.
    fn signed_request(
        &self,
        method: Method,
        base_url: &str,
        full_url: String,
        params: &Vec<(String, String)>,
        body: Option<Json>,
        nonce: &str,
        timestamp: &str,
    ) -> (request: Request)
        ensures
            request.method == method,
            request.url == full_url,
            request.body == body,
            signed(
                request.authorization,
                self.credentials(),
                method,
                base_url@,
                param_bytes(params@),
                nonce@,
                timestamp@,
            ),
    {
        let header = build_authorization(
            self.credentials,
            method.name(),
            base_url,
            params,
            nonce,
            timestamp,
        );
        Request { method, url: full_url, authorization: Authorization::OAuth(header), body }
    }

    /// The request that creates a post, as a reply where `in_reply_to_tweet_id`
    /// names a post. The body is not part of what is signed.
    pub fn post_v2(
        &self,
        message: &str,
        in_reply_to_tweet_id: &Option<String>,
        nonce: &str,
        timestamp: &str,
    ) -> (request: Request)
        ensures
            request.method == Method::Post,
            request.url@ == "https://api.twitter.com/2/tweets"@,
            signed(
                request.authorization,
                self.credentials(),
                Method::Post,
                request.url@,
                Seq::<Pair>::empty(),
                nonce@,
                timestamp@,
            ),
            request.body matches Some(b) && b.value() == post_body(
                message@,
                optional_view(*in_reply_to_tweet_id),
            ),
    {
        let url = "https://api.twitter.com/2/tweets";
        let params: Vec<(String, String)> = Vec::new();
        assert(param_bytes(params@) =~= Seq::<Pair>::empty());
        let body = create_body(message, in_reply_to_tweet_id);
        self.signed_request(
            Method::Post,
            url,
            url.to_owned(),
            &params,
            Some(body),
            nonce,
            timestamp,
        )
    }

    /// The request that deletes a post.
    pub fn delete_v2(&self, id: &str, nonce: &str, timestamp: &str) -> (request: Request)
        ensures
            request.method == Method::Delete,
            request.url@ == "https://api.twitter.com/2/tweets/"@ + id@,
            signed(
                request.authorization,
                self.credentials(),
                Method::Delete,
                request.url@,
                Seq::<Pair>::empty(),
                nonce@,
                timestamp@,
            ),
            request.body is None,
    {
        let url = "https://api.twitter.com/2/tweets/".to_owned().concat(id);
        let params: Vec<(String, String)> = Vec::new();
        assert(param_bytes(params@) =~= Seq::<Pair>::empty());
        let full = url.clone();
        self.signed_request(Method::Delete, url.as_str(), full, &params, None, nonce, timestamp)
    }

    /// The request for the legacy timeline. The count goes into the query
    /// and into what is signed; no range is imposed on it here.
    pub fn feed(&self, count: i32, nonce: &str, timestamp: &str) -> (request: Request)
        ensures
            request.method == Method::Get,
            request.url@ == "https://api.twitter.com/1.1/statuses/home_timeline.json"@
                + "?count="@ + ascii_chars(decimal_text(count as int)),
            signed(
                request.authorization,
                self.credentials(),
                Method::Get,
                "https://api.twitter.com/1.1/statuses/home_timeline.json"@,
                feed_params(count),
                nonce@,
                timestamp@,
            ),
            request.body is None,
    {
        let base = "https://api.twitter.com/1.1/statuses/home_timeline.json";
        let digits = decimal_string(count);
        let mut params: Vec<(String, String)> = Vec::new();
        params.push(("count".to_owned(), digits.clone()));
        assert(param_bytes(params@) =~= feed_params(count));
        let full = base.to_owned().concat("?count=").concat(digits.as_str());
        self.signed_request(Method::Get, base, full, &params, None, nonce, timestamp)
    }

    /// The request for one's own user. Its two query parameters are signed.
    pub fn me(&self, nonce: &str, timestamp: &str) -> (request: Request)
        ensures
            request.method == Method::Get,
            request.url@ == "https://api.twitter.com/2/users/me"@
                + "?expansions=pinned_tweet_id&user.fields=created_at"@,
            signed(
                request.authorization,
                self.credentials(),
                Method::Get,
                "https://api.twitter.com/2/users/me"@,
                me_params(),
                nonce@,
                timestamp@,
            ),
            request.body is None,
    {
        let base = "https://api.twitter.com/2/users/me";
        let mut params: Vec<(String, String)> = Vec::new();
        params.push(("expansions".to_owned(), "pinned_tweet_id".to_owned()));
        params.push(("user.fields".to_owned(), "created_at".to_owned()));
        assert(param_bytes(params@) =~= me_params());
        let full = base.to_owned().concat("?expansions=pinned_tweet_id&user.fields=created_at");
        self.signed_request(Method::Get, base, full, &params, None, nonce, timestamp)
    }

    /// The request for a bearer token, with the consumer key and secret as
    /// user name and password.
    pub fn bearer_token(&self) -> (request: Request)
        ensures
            request.method == Method::Post,
            request.url@ == "https://api.twitter.com/oauth2/token?grant_type=client_credentials"@,
            request.authorization matches Authorization::Basic(user, password) && user@
                == self.credentials().api_key@ && password@ == self.credentials().api_key_secret@,
            request.body is None,
    {
        Request {
            method: Method::Post,
            url: "https://api.twitter.com/oauth2/token?grant_type=client_credentials".to_owned(),
            authorization: Authorization::Basic(
                self.credentials.api_key.clone(),
                self.credentials.api_key_secret.clone(),
            ),
            body: None,
        }
    }

    /// The request for a user's own timeline, with a bearer token.
    pub fn home_v2(&self, user_id: &str, count: i32, bearer_token: &str) -> (request: Request)
        ensures
            request.method == Method::Get,
            request.url@ == "https://api.twitter.com/2/users/"@ + user_id@
                + "/tweets?max_results="@ + ascii_chars(decimal_text(count as int))
                + "&tweet.fields=created_at,author_id,public_metrics"@,
            request.authorization matches Authorization::Bearer(token) && token@ == bearer_token@,
            request.body is None,
    {
        let digits = decimal_string(count);
        let url = "https://api.twitter.com/2/users/".to_owned().concat(user_id).concat(
            "/tweets?max_results=",
        ).concat(digits.as_str()).concat("&tweet.fields=created_at,author_id,public_metrics");
        Request {
            method: Method::Get,
            url,
            authorization: Authorization::Bearer(bearer_token.to_owned()),
            body: None,
        }
    }

    /// The request that likes a post for a user.
    pub fn like_v2(&self, user_id: &str, tweet_id: &str, nonce: &str, timestamp: &str) -> (request:
        Request)
        ensures
            request.method == Method::Post,
            request.url@ == "https://api.twitter.com/2/users/"@ + user_id@ + "/likes"@,
            signed(
                request.authorization,
                self.credentials(),
                Method::Post,
                request.url@,
                Seq::<Pair>::empty(),
                nonce@,
                timestamp@,
            ),
            request.body matches Some(b) && b.value() == like_body(tweet_id@),
    {
        let url = "https://api.twitter.com/2/users/".to_owned().concat(user_id).concat("/likes");
        let params: Vec<(String, String)> = Vec::new();
        assert(param_bytes(params@) =~= Seq::<Pair>::empty());
        let body = text_object("tweet_id", tweet_id);
        let full = url.clone();
        self.signed_request(
            Method::Post,
            url.as_str(),
            full,
            &params,
            Some(body),
            nonce,
            timestamp,
        )
    }

    /// The request that takes a user's like from a post.
    pub fn unlike_v2(&self, user_id: &str, tweet_id: &str, nonce: &str, timestamp: &str) -> (request:
        Request)
        ensures
            request.method == Method::Delete,
            request.url@ == "https://api.twitter.com/2/users/"@ + user_id@ + "/likes/"@
                + tweet_id@,
            signed(
                request.authorization,
                self.credentials(),
                Method::Delete,
                request.url@,
                Seq::<Pair>::empty(),
                nonce@,
                timestamp@,
            ),
            request.body is None,
    {
        let url = "https://api.twitter.com/2/users/".to_owned().concat(user_id).concat(
            "/likes/",
        ).concat(tweet_id);
        let params: Vec<(String, String)> = Vec::new();
        assert(param_bytes(params@) =~= Seq::<Pair>::empty());
        let full = url.clone();
        self.signed_request(Method::Delete, url.as_str(), full, &params, None, nonce, timestamp)
    }

    /// The error for an answer whose status is no success.
    pub fn error(status: u16) -> (e: TwitterError)
        ensures
            is_api_error(e, status),
    {
        api_error(status)
    }
}

/// The document of an answer: what its body holds, if the status is a
/// success and the body is a JSON document.
pub open spec fn document_of(status: u16, body: Seq<char>) -> Option<JsonValue> {
    if is_success(status) {
        parsed_json(body)
    } else {
        None
    }
}

/// What stands under `data` in the document of an answer.
pub open spec fn data_document(status: u16, body: Seq<char>) -> Option<JsonValue> {
    match document_of(status, body) {
        Some(v) => data_of(v),
        None => None,
    }
}

/// Whether an error is the one owed for an answer that gave no result: the
/// API error of the status where it is no success, else the decode error of
/// the operation.
pub open spec fn failure_of(e: TwitterError, status: u16, operation: Seq<char>) -> bool {
    if is_success(status) {
        is_decode_error(e, operation)
    } else {
        is_api_error(e, status)
    }
}

/// The decode error of an operation.
pub fn decode_error(operation: &str) -> (e: TwitterError)
    ensures
        is_decode_error(e, operation@),
{
    TwitterError::Decode(operation.to_owned())
}

/// What an answer means, given its status and what the parser made of its
/// body: the document on a success with a document, a decode error on a
/// success without one, the API error of the status otherwise.
pub fn interpret(operation: &str, status: u16, document: Option<Json>) -> (out: Result<
    Json,
    TwitterError,
>)
    ensures
        match out {
            Ok(j) => is_success(status) && document == Some(j),
            Err(e) => failure_of(e, status, operation@) && (is_success(status) ==> document
                is None),
        },
{
    if 200 <= status && status <= 299 {
        match document {
            Some(j) => Ok(j),
            None => Err(decode_error(operation)),
        }
    } else {
        Err(api_error(status))
    }
}

/// Reads the document of an answer. The body is parsed only where the
/// status is a success.
pub fn read_document(operation: &str, status: u16, body: &str) -> (out: Result<Json, TwitterError>)
    ensures
        match out {
            Ok(j) => document_of(status, body@) == Some(j.value()),
            Err(e) => document_of(status, body@) is None && failure_of(e, status, operation@),
        },
{
    let document = if 200 <= status && status <= 299 {
        parse_json(body)
    } else {
        None
    };
    interpret(operation, status, document)
}

/// The result of an answer whose document is the result itself.
pub fn read_result<T: FromJson>(operation: &str, status: u16, body: &str) -> (out: Result<
    T,
    TwitterError,
>)
    ensures
        match out {
            Ok(d) => document_of(status, body@) matches Some(v) && d.agrees(v),
            Err(e) => failure_of(e, status, operation@) && !(document_of(status, body@) matches Some(
                v,
            ) && T::readable(v)),
        },
{
    let document = match read_document(operation, status, body) {
        Ok(j) => j,
        Err(e) => {
            return Err(e);
        },
    };
    match T::from_json(&document) {
        Some(d) => Ok(d),
        None => Err(decode_error(operation)),
    }
}

/// The result of an answer whose document holds the result under `data`.
pub fn read_data<T: FromJson>(operation: &str, status: u16, body: &str) -> (out: Result<
    T,
    TwitterError,
>)
    ensures
        match out {
            Ok(d) => data_document(status, body@) matches Some(v) && d.agrees(v),
            Err(e) => failure_of(e, status, operation@) && !(data_document(status, body@)
                matches Some(v) && T::readable(v)),
        },
{
    match read_result::<TwitterResponse<T>>(operation, status, body) {
        Ok(envelope) => Ok(envelope.data),
        Err(e) => Err(e),
    }
}

/// The result of creating a post.
pub fn post_v2_response(status: u16, body: &str) -> (out: Result<
    TwitterCreateResponseData,
    TwitterError,
>)
    ensures
        match out {
            Ok(d) => data_document(status, body@) matches Some(v) && d.agrees(v),
            Err(e) => failure_of(e, status, "create post"@) && !(data_document(status, body@)
                matches Some(v) && TwitterCreateResponseData::readable(v)),
        },
{
    read_data("create post", status, body)
}

/// The result of deleting a post.
pub fn delete_v2_response(status: u16, body: &str) -> (out: Result<
    TwitterDeleteResponseData,
    TwitterError,
>)
    ensures
        match out {
            Ok(d) => data_document(status, body@) matches Some(v) && d.agrees(v),
            Err(e) => failure_of(e, status, "delete post"@) && !(data_document(status, body@)
                matches Some(v) && TwitterDeleteResponseData::readable(v)),
        },
{
    read_data("delete post", status, body)
}

/// The legacy timeline: the document itself is the array of items.
pub fn feed_response(status: u16, body: &str) -> (out: Result<TwitterFeed, TwitterError>)
    ensures
        match out {
            Ok(feed) => document_of(status, body@) matches Some(v) && feed.agrees(v),
            Err(e) => failure_of(e, status, "fetch legacy timeline"@) && !(document_of(
                status,
                body@,
            ) matches Some(v) && TwitterFeed::readable(v)),
        },
{
    read_result("fetch legacy timeline", status, body)
}

/// One's own user.
pub fn me_response(status: u16, body: &str) -> (out: Result<TwitterUser, TwitterError>)
    ensures
        match out {
            Ok(d) => data_document(status, body@) matches Some(v) && d.agrees(v),
            Err(e) => failure_of(e, status, "fetch own user"@) && !(data_document(status, body@)
                matches Some(v) && TwitterUser::readable(v)),
        },
{
    read_data("fetch own user", status, body)
}

/// A user's own timeline.
pub fn home_v2_response(status: u16, body: &str) -> (out: Result<
    Vec<TwitterHomeItem>,
    TwitterError,
>)
    ensures
        match out {
            Ok(home) => data_document(status, body@) matches Some(v) && home.agrees(v),
            Err(e) => failure_of(e, status, "fetch home timeline"@) && !(data_document(
                status,
                body@,
            ) matches Some(v) && Vec::<TwitterHomeItem>::readable(v)),
        },
{
    read_data("fetch home timeline", status, body)
}

/// The result of liking a post.
pub fn like_v2_response(status: u16, body: &str) -> (out: Result<
    TwitterLikeResponseData,
    TwitterError,
>)
    ensures
        match out {
            Ok(d) => data_document(status, body@) matches Some(v) && d.agrees(v),
            Err(e) => failure_of(e, status, "like post"@) && !(data_document(status, body@)
                matches Some(v) && TwitterLikeResponseData::readable(v)),
        },
{
    read_data("like post", status, body)
}

/// The result of taking a like from a post.
pub fn unlike_v2_response(status: u16, body: &str) -> (out: Result<
    TwitterLikeResponseData,
    TwitterError,
>)
    ensures
        match out {
            Ok(d) => data_document(status, body@) matches Some(v) && d.agrees(v),
            Err(e) => failure_of(e, status, "unlike post"@) && !(data_document(status, body@)
                matches Some(v) && TwitterLikeResponseData::readable(v)),
        },
{
    read_data("unlike post", status, body)
}

/// The bearer token: the document itself holds it as `access_token`.
pub fn bearer_token_response(status: u16, body: &str) -> (out: Result<String, TwitterError>)
    ensures
        match out {
            Ok(token) => document_of(status, body@) matches Some(v) && (OauthResponse {
                access_token: token,
            }).agrees(v),
            Err(e) => failure_of(e, status, "fetch bearer token"@) && !(document_of(status, body@)
                matches Some(v) && OauthResponse::readable(v)),
        },
{
    match read_result::<OauthResponse>("fetch bearer token", status, body) {
        Ok(d) => Ok(d.access_token),
        Err(e) => Err(e),
    }
}

} // verus!
