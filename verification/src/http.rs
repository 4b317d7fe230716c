//! Planning requests to the Revolt REST API: which address a request goes to,
//! and which rate limit it has to wait for before it is sent.

use vstd::prelude::*;
use vstd::string::StringExecFns;
use governor::Quota;
use std::num::NonZeroU32;
use crate::error::APIError;
use crate::models::user::User;
use crate::sequences::first_index_of;
use crate::text::{before_first, ends_with, up_to};

verus! {

/// `governor::Quota`, the rate and the burst size that a rate limiter is made with.
#[verifier::external_type_specification]
#[verifier::external_body]
pub struct ExQuota(Quota);

/// The burst size of a quota: how many requests it lets through at once.
pub uninterp spec fn quota_burst(quota: Quota) -> u32;

/// The time in nanoseconds in which a quota lets one more request through.
pub uninterp spec fn quota_interval(quota: Quota) -> u64;

/// `Quota::per_second`: the quota that lets `rate` requests through at once
/// and one more every `rate`-th part of a second, counted in whole nanoseconds.
#[verifier::external_body]
fn quota_per_second(rate: u32) -> (quota: Quota)
    requires
        rate > 0,
    ensures
        quota_burst(quota) == rate,
        quota_interval(quota) == 1_000_000_000u64 / (rate as u64),
{
    Quota::per_second(NonZeroU32::new(rate).unwrap())
}

/// `Quota::allow_burst`: the same quota with another burst size.
#[verifier::external_body]
fn quota_allow_burst(quota: Quota, burst: u32) -> (adjusted: Quota)
    requires
        burst > 0,
    ensures
        quota_burst(adjusted) == burst,
        quota_interval(adjusted) == quota_interval(quota),
{
    quota.allow_burst(NonZeroU32::new(burst).unwrap())
}

/// The url of the Revolt REST API.
pub const DELTA_API: &'static str = "https://api.revolt.chat";

/// How many milliseconds at most a request waits longer than its rate limit asks.
pub const JITTER_MILLIS: u64 = 100;

/// How many requests a second the shared rate limit lets through.
pub const SHARED_PER_SECOND: u32 = 2;

/// The method of a request.
#[derive(Debug, Clone, Copy, PartialEq, Eq)]
pub enum Method {
    Get,
    Post,
    Put,
    Patch,
    Delete,
}

/// A group of API paths with a rate limit of its own, named by the first segment of the path.
#[derive(Debug, Clone, Copy, PartialEq, Eq)]
pub enum RouteClass {
    Bots,
    Channels,
    Servers,
    Auth,
    Swagger,
}

/// The rate limit that a request has to pass.
#[derive(Debug, Clone, Copy, PartialEq, Eq)]
pub enum RateLimit {
    /// The limit on sending messages.
    Messages,
    /// The limit on deleting sessions.
    AuthDeletion,
    /// The limit of a group of paths.
    Route(RouteClass),
    /// The limit shared by every request that has no other.
    Shared,
}

/// A request as it is to be sent: method and address, and the rate limit to
/// wait for before sending.
#[derive(Debug, Clone, PartialEq, Eq)]
pub struct Request {
    pub method: Method,
    pub url: String,
    pub limit: RateLimit,
}

/// What looking an entity up gives: the entity, where the cache holds it, or
/// the request that fetches it. Nothing is stored by looking up: what a
/// request brings is not in the cache afterwards.
#[derive(Debug, PartialEq, Eq)]
pub enum Fetch<T> {
    Cached(T),
    Request(Request),
}

/// Why a request failed.
#[derive(Debug, Clone, PartialEq, Eq)]
pub enum HttpError {
    /// The API answered with an error.
    Api(APIError),
    /// The request could not be made or its answer could not be read.
    Transport(String),
}

impl RouteClass {
    /// The limit that the API publishes for the group.
    pub open spec fn spec_published_limit(self) -> u8 {
        match self {
            RouteClass::Bots => 10,
            RouteClass::Channels => 15,
            RouteClass::Servers => 5,
            RouteClass::Auth => 3,
            RouteClass::Swagger => 100,
        }
    }

    /// The limit that the API publishes for the group.
    #[verifier::when_used_as_spec(spec_published_limit)]
    pub fn published_limit(self) -> (r: u8)
        ensures
            r == self.spec_published_limit(),
    {
        match self {
            RouteClass::Bots => 10,
            RouteClass::Channels => 15,
            RouteClass::Servers => 5,
            RouteClass::Auth => 3,
            RouteClass::Swagger => 100,
        }
    }

    /// The group that a first path segment names, if it names one.
    pub open spec fn named(segment: Seq<char>) -> Option<RouteClass> {
        if segment == "bots"@ {
            Some(RouteClass::Bots)
        } else if segment == "channels"@ {
            Some(RouteClass::Channels)
        } else if segment == "servers"@ {
            Some(RouteClass::Servers)
        } else if segment == "auth"@ {
            Some(RouteClass::Auth)
        } else if segment == "swagger"@ {
            Some(RouteClass::Swagger)
        } else {
            None
        }
    }

    /// The group that a first path segment names, if it names one.
    pub fn from_segment(segment: &String) -> (r: Option<RouteClass>)
        ensures
            r == RouteClass::named(segment@),
    {
        if *segment == "bots".to_owned() {
            Some(RouteClass::Bots)
        } else if *segment == "channels".to_owned() {
            Some(RouteClass::Channels)
        } else if *segment == "servers".to_owned() {
            Some(RouteClass::Servers)
        } else if *segment == "auth".to_owned() {
            Some(RouteClass::Auth)
        } else if *segment == "swagger".to_owned() {
            Some(RouteClass::Swagger)
        } else {
            None
        }
    }
}

impl RateLimit {
    /// How many requests a second the limit lets through: a tenth of the
    /// published limit for a group of paths, and one at least.
    pub open spec fn spec_per_second(self) -> u32 {
        match self {
            RateLimit::Messages => 1,
            RateLimit::AuthDeletion => 25,
            RateLimit::Route(class) => if class.spec_published_limit() / 10 >= 1 {
                (class.spec_published_limit() / 10) as u32
            } else {
                1
            },
            RateLimit::Shared => SHARED_PER_SECOND,
        }
    }

    /// How many requests a second the limit lets through.
    #[verifier::when_used_as_spec(spec_per_second)]
    pub fn per_second(self) -> (r: u32)
        ensures
            r == self.spec_per_second(),
            r >= 1,
    {
        match self {
            RateLimit::Messages => 1,
            RateLimit::AuthDeletion => 25,
            RateLimit::Route(class) => {
                let rate: u8 = class.published_limit() / 10;
                if rate >= 1 {
                    rate as u32
                } else {
                    1
                }
            },
            RateLimit::Shared => SHARED_PER_SECOND,
        }
    }

    /// The quota to make the limiter of this rate limit with. It lets one
    /// request through at a time, and the next after the part of a second
    /// that the rate leaves for each: requests that follow each other at once
    /// are spread over time from the second one on.
    pub fn quota(self) -> (quota: Quota)
        ensures
            quota_burst(quota) == 1,
            quota_interval(quota) == 1_000_000_000u64 / (self.spec_per_second() as u64),
    {
        quota_allow_burst(quota_per_second(self.per_second()), 1)
    }

    /// The rate limit of a request. Sending a message, which is a `POST` to a
    /// path that ends in `/messages`, has a limit of its own. So has deleting
    /// a session, which is a `DELETE` to a path whose first segment is `auth`.
    /// Any other request has the limit of the group that the first segment
    /// of its path names, or the shared limit if it names none.
    pub open spec fn of(method: Method, path: Seq<char>) -> RateLimit {
        let class = RouteClass::named(before_first(path, '/'));
        if method == Method::Post && "/messages"@.is_suffix_of(path) {
            RateLimit::Messages
        } else if method == Method::Delete && class == Some(RouteClass::Auth) {
            RateLimit::AuthDeletion
        } else {
            match class {
                Some(class) => RateLimit::Route(class),
                None => RateLimit::Shared,
            }
        }
    }
}

/// The address of an API path.
pub open spec fn url_of(path: Seq<char>) -> Seq<char> {
    DELTA_API@ + "/"@ + path
}

/// Whether a request is the one planned for a method and a path.
pub open spec fn planned(request: Request, method: Method, path: Seq<char>) -> bool {
    &&& request.method == method
    &&& request.url@ == url_of(path)
    &&& request.limit == RateLimit::of(method, path)
}

/// A `POST` to the messages of a channel waits for the limit on sending
/// messages, whatever the channel.
pub proof fn lemma_sending_waits_for_the_message_limit(channel_id: Seq<char>)
    ensures
        RateLimit::of(Method::Post, "channels/"@ + channel_id + "/messages"@)
            == RateLimit::Messages,
{
    let path = "channels/"@ + channel_id + "/messages"@;
    assert(path.subrange(path.len() - "/messages"@.len(), path.len() as int) =~= "/messages"@);
}

/// A `DELETE` under `auth` waits for the limit on deleting sessions, whatever
/// follows in the path.
pub proof fn lemma_deleting_a_session_waits_for_its_limit(rest: Seq<char>)
    ensures
        RateLimit::of(Method::Delete, "auth/"@ + rest) == RateLimit::AuthDeletion,
{
    reveal_strlit("auth/");
    reveal_strlit("auth");
    reveal_strlit("bots");
    reveal_strlit("channels");
    reveal_strlit("servers");
    let path = "auth/"@ + rest;
    reveal_with_fuel(first_index_of, 6);
    assert(path[0] == 'a' && path[1] == 'u' && path[2] == 't' && path[3] == 'h' && path[4] == '/');
    assert(path.drop_first()[0] == 'u');
    assert(path.drop_first().drop_first()[0] == 't');
    assert(path.drop_first().drop_first().drop_first()[0] == 'h');
    assert(path.drop_first().drop_first().drop_first().drop_first()[0] == '/');
    assert(first_index_of(path, '/') == 4);
    assert(before_first(path, '/') =~= "auth"@);
    assert("auth"@[0] != "bots"@[0]);
    assert("auth"@.len() != "channels"@.len());
    assert("auth"@.len() != "servers"@.len());
}

/// Whether a response status reports success.
pub open spec fn success(status: u16) -> bool {
    200 <= status <= 299
}

/// Plans the requests to the Revolt REST API.
#[derive(Debug, PartialEq, Eq)]
pub struct HttpClient {
    /// The user that the requests are made as.
    pub bot: User,
}

impl HttpClient {
    /// A client that makes its requests as `bot`.
    pub fn new(bot: User) -> (client: Self)
        ensures
            client.bot == bot,
    {
        HttpClient { bot }
    }

    /// The address of an API path.
    pub fn make_url(path: &str) -> (url: String)
        ensures
            url@ == url_of(path@),
    {
        DELTA_API.to_owned().concat("/").concat(path)
    }

    /// Decides which rate limit a request has to wait for.
    pub fn obtain_lease(&self, path: &str, method: Method) -> (limit: RateLimit)
        ensures
            limit == RateLimit::of(method, path@),
    {
        let segment = up_to(path, '/');
        let class = RouteClass::from_segment(&segment);
        let message = match method {
            Method::Post => ends_with(path, "/messages"),
            _ => false,
        };
        let session = match (method, class) {
            (Method::Delete, Some(RouteClass::Auth)) => true,
            _ => false,
        };
        if message {
            RateLimit::Messages
        } else if session {
            RateLimit::AuthDeletion
        } else {
            match class {
                Some(class) => RateLimit::Route(class),
                None => RateLimit::Shared,
            }
        }
    }

    /// Plans the request with the given method to an API path. Every request
    /// is planned here, so that none goes out without a rate limit.
    pub fn request(&self, method: Method, path: &str) -> (request: Request)
        ensures
            planned(request, method, path@),
    {
        Request { method, url: Self::make_url(path), limit: self.obtain_lease(path, method) }
    }

    /// Plans a `GET` request to the API.
    pub fn get(&self, path: &str) -> (request: Request)
        ensures
            planned(request, Method::Get, path@),
    {
        self.request(Method::Get, path)
    }

    /// Plans a `POST` request to the API.
    pub fn post(&self, path: &str) -> (request: Request)
        ensures
            planned(request, Method::Post, path@),
    {
        self.request(Method::Post, path)
    }

    /// Plans a `PUT` request to the API.
    pub fn put(&self, path: &str) -> (request: Request)
        ensures
            planned(request, Method::Put, path@),
    {
        self.request(Method::Put, path)
    }

    /// Plans a `PATCH` request to the API.
    pub fn patch(&self, path: &str) -> (request: Request)
        ensures
            planned(request, Method::Patch, path@),
    {
        self.request(Method::Patch, path)
    }

    /// Plans a `DELETE` request to the API.
    pub fn delete(&self, path: &str) -> (request: Request)
        ensures
            planned(request, Method::Delete, path@),
    {
        self.request(Method::Delete, path)
    }

    /// Whether a response with this status carries what was asked for, and
    /// not an error.
    pub fn is_success(status: u16) -> (r: bool)
        ensures
            r == success(status),
    {
        200 <= status && status <= 299
    }

    /// What a response that reports success gives: its body, or a transport
    /// failure with the decoder's message where the body could not be decoded.
    pub fn accepted<T>(body: Result<T, String>) -> (r: Result<T, HttpError>)
        ensures
            r == (match body {
                Ok(value) => Ok::<T, HttpError>(value),
                Err(message) => Err(HttpError::Transport(message)),
            }),
    {
        match body {
            Ok(value) => Ok(value),
            Err(message) => Err(HttpError::Transport(message)),
        }
    }

    /// What a response that reports no success gives: the error that the API
    /// sent, or a transport failure with the decoder's message where the
    /// error could not be decoded.
    pub fn refused(error: Result<APIError, String>) -> (r: HttpError)
        ensures
            r == (match error {
                Ok(error) => HttpError::Api(error),
                Err(message) => HttpError::Transport(message),
            }),
    {
        match error {
            Ok(error) => HttpError::Api(error),
            Err(message) => HttpError::Transport(message),
        }
    }
}

} // verus!
