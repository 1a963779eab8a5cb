//! An authorised session's configuration and the requests it makes. Sending
//! them is left to the caller's transport; the answers go through
//! [`crate::response`].
use vstd::prelude::*;
use vstd::string::StringExecFns;
use crate::entities::{StatusId, UserId, decimal_text, decimal};

verus! {

/// The instance that a session talks to unless told otherwise.
pub const DEFAULT_DOMAIN: &'static str = "mastodon.social";

/// An HTTP method.
#[derive(Clone, Copy, Debug, PartialEq, Eq, Structural)]
pub enum Method {
    Get,
    Post,
}

/// The calls of the API that the library knows.
#[derive(Clone, Copy, Debug, PartialEq, Eq, Structural)]
pub enum Endpoint {
    Status(StatusId),
    StatusContext(StatusId),
    StatusCard(StatusId),
    RebloggedBy(StatusId),
    FavouritedBy(StatusId),
    Account(UserId),
    AccountStatuses(UserId),
    Following(UserId),
    Followers(UserId),
    HomeTimeline,
    PublicTimeline,
    MentionsTimeline,
    /// Where new statuses are posted.
    Statuses,
}

/// The path of an endpoint below the API's root.
pub open spec fn path_of(e: Endpoint) -> Seq<char> {
    match e {
        Endpoint::Status(id) => "/statuses/"@ + decimal_text(id.0 as nat),
        Endpoint::StatusContext(id) => "/statuses/"@ + decimal_text(id.0 as nat) + "/context"@,
        Endpoint::StatusCard(id) => "/statuses/"@ + decimal_text(id.0 as nat) + "/card"@,
        Endpoint::RebloggedBy(id) => "/statuses/"@ + decimal_text(id.0 as nat) + "/reblogged_by"@,
        Endpoint::FavouritedBy(id) => "/statuses/"@ + decimal_text(id.0 as nat) + "/favourited_by"@,
        Endpoint::Account(id) => "/accounts/"@ + decimal_text(id.0 as nat),
        Endpoint::AccountStatuses(id) => "/accounts/"@ + decimal_text(id.0 as nat) + "/statuses"@,
        Endpoint::Following(id) => "/accounts/"@ + decimal_text(id.0 as nat) + "/following"@,
        Endpoint::Followers(id) => "/accounts/"@ + decimal_text(id.0 as nat) + "/followers"@,
        Endpoint::HomeTimeline => "/timelines/home"@,
        Endpoint::PublicTimeline => "/timelines/public"@,
        Endpoint::MentionsTimeline => "/timelines/mentions"@,
        Endpoint::Statuses => "/statuses"@,
    }
}

/// `prefix`, the decimal digits of `n`, then `suffix`.
fn id_path(prefix: &str, n: u64, suffix: &str) -> (r: String)
    ensures
        r@ == prefix@ + decimal_text(n as nat) + suffix@,
{
    let mut s = String::from_str(prefix);
    let digits = decimal(n);
    s.append(digits.as_str());
    s.append(suffix);
    s
}

impl Endpoint {
    /// The path of the endpoint below the API's root.
    pub fn path(&self) -> (r: String)
        ensures
            r@ == path_of(*self),
    {
        match *self {
            Endpoint::Status(id) => {
                let r = id_path("/statuses/", id.0, "");
                proof {
                    reveal_strlit("");
                    assert(r@ =~= path_of(*self));
                }
                r
            },
            Endpoint::StatusContext(id) => id_path("/statuses/", id.0, "/context"),
            Endpoint::StatusCard(id) => id_path("/statuses/", id.0, "/card"),
            Endpoint::RebloggedBy(id) => id_path("/statuses/", id.0, "/reblogged_by"),
            Endpoint::FavouritedBy(id) => id_path("/statuses/", id.0, "/favourited_by"),
            Endpoint::Account(id) => {
                let r = id_path("/accounts/", id.0, "");
                proof {
                    reveal_strlit("");
                    assert(r@ =~= path_of(*self));
                }
                r
            },
            Endpoint::AccountStatuses(id) => id_path("/accounts/", id.0, "/statuses"),
            Endpoint::Following(id) => id_path("/accounts/", id.0, "/following"),
            Endpoint::Followers(id) => id_path("/accounts/", id.0, "/followers"),
            Endpoint::HomeTimeline => String::from_str("/timelines/home"),
            Endpoint::PublicTimeline => String::from_str("/timelines/public"),
            Endpoint::MentionsTimeline => String::from_str("/timelines/mentions"),
            Endpoint::Statuses => String::from_str("/statuses"),
        }
    }
}

/// A request ready for a transport to send.
#[derive(Clone, Debug, PartialEq, Eq)]
pub struct Request {
    pub method: Method,
    pub url: String,
    /// The value of the `Authorization` header.
    pub authorization: String,
    pub body: String,
}

/// An authorised session: the bearer token and the instance's domain.
#[derive(Clone, Debug, PartialEq, Eq)]
pub struct Mastodon {
    pub access_token: String,
    pub domain: String,
}

impl Mastodon {
    /// A session with the given token, against the given domain.
    pub fn from_access_token(access_token: String, domain: &str) -> (r: Mastodon)
        ensures
            r.access_token@ == access_token@,
            r.domain@ == domain@,
    {
        Mastodon { access_token, domain: String::from_str(domain) }
    }

    /// The full URL of an endpoint on this session's instance.
    pub fn url(&self, e: &Endpoint) -> (r: String)
        ensures
            r@ == "https://"@ + self.domain@ + "/api/v1"@ + path_of(*e),
    {
        let mut s = String::from_str("https://");
        s.append(self.domain.as_str());
        s.append("/api/v1");
        let p = e.path();
        s.append(p.as_str());
        s
    }

    /// The request for an endpoint: its method, URL and bearer token, and
    /// the given body, or an empty one.
    pub fn request(&self, method: Method, e: &Endpoint, body: Option<String>) -> (r: Request)
        ensures
            r.method == method,
            r.url@ == "https://"@ + self.domain@ + "/api/v1"@ + path_of(*e),
            r.authorization@ == "Bearer "@ + self.access_token@,
            r.body@ == match body {
                Some(b) => b@,
                None => Seq::<char>::empty(),
            },
    {
        let mut authorization = String::from_str("Bearer ");
        authorization.append(self.access_token.as_str());
        let body = match body {
            Some(b) => b,
            None => String::new(),
        };
        Request { method, url: self.url(e), authorization, body }
    }

    /// The request that posts a new status; `body` is the JSON text of its
    /// encoding.
    pub fn post_status(&self, body: String) -> (r: Request)
        ensures
            r.method == Method::Post,
            r.url@ == "https://"@ + self.domain@ + "/api/v1/statuses"@,
            r.authorization@ == "Bearer "@ + self.access_token@,
            r.body@ == body@,
    {
        let r = self.request(Method::Post, &Endpoint::Statuses, Some(body));
        proof {
            reveal_strlit("/api/v1");
            reveal_strlit("/statuses");
            reveal_strlit("/api/v1/statuses");
            assert("https://"@ + self.domain@ + "/api/v1"@ + "/statuses"@ =~= "https://"@ + self.domain@ + "/api/v1/statuses"@);
        }
        r
    }

    /// The `GET` request for an endpoint.
    pub fn get(&self, e: &Endpoint) -> (r: Request)
        ensures
            r.method == Method::Get,
            r.url@ == "https://"@ + self.domain@ + "/api/v1"@ + path_of(*e),
            r.authorization@ == "Bearer "@ + self.access_token@,
            r.body@ == Seq::<char>::empty(),
    {
        self.request(Method::Get, e, None)
    }
}

} // verus!
