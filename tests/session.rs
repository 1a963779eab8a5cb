use mastodon::entities::{NewStatus, NotificationId, StatusId, UserId, Visibility};
use mastodon::json::{FromJson, Json, ToJson};
use mastodon::mastodon::{Endpoint, Mastodon, Method, DEFAULT_DOMAIN};

#[test]
fn ids_print_in_decimal() {
    assert_eq!(StatusId(2186739).to_string(), "2186739");
    assert_eq!(UserId(0).to_string(), "0");
    assert_eq!(NotificationId(18446744073709551615).to_string(), "18446744073709551615");
}

#[test]
fn endpoint_paths() {
    assert_eq!(Endpoint::Status(StatusId(2186739)).path(), "/statuses/2186739");
    assert_eq!(Endpoint::StatusContext(StatusId(5)).path(), "/statuses/5/context");
    assert_eq!(Endpoint::StatusCard(StatusId(5)).path(), "/statuses/5/card");
    assert_eq!(Endpoint::RebloggedBy(StatusId(5)).path(), "/statuses/5/reblogged_by");
    assert_eq!(Endpoint::FavouritedBy(StatusId(2186739)).path(), "/statuses/2186739/favourited_by");
    assert_eq!(Endpoint::Account(UserId(12)).path(), "/accounts/12");
    assert_eq!(Endpoint::AccountStatuses(UserId(12)).path(), "/accounts/12/statuses");
    assert_eq!(Endpoint::Following(UserId(12)).path(), "/accounts/12/following");
    assert_eq!(Endpoint::Followers(UserId(12)).path(), "/accounts/12/followers");
    assert_eq!(Endpoint::HomeTimeline.path(), "/timelines/home");
    assert_eq!(Endpoint::PublicTimeline.path(), "/timelines/public");
    assert_eq!(Endpoint::MentionsTimeline.path(), "/timelines/mentions");
}

#[test]
fn requests_carry_url_and_token() {
    let m = Mastodon::from_access_token("ACCESS_TOKEN_HERE".to_string(), DEFAULT_DOMAIN);
    let r = m.get(&Endpoint::Status(StatusId(2186739)));
    assert_eq!(r.method, Method::Get);
    assert_eq!(r.url, "https://mastodon.social/api/v1/statuses/2186739");
    assert_eq!(r.authorization, "Bearer ACCESS_TOKEN_HERE");
    assert_eq!(r.body, "");
}

#[test]
fn post_request_keeps_its_body() {
    let m = Mastodon::from_access_token("t".to_string(), "example.org");
    let r = m.request(Method::Post, &Endpoint::HomeTimeline, Some("x=1".to_string()));
    assert_eq!(r.method, Method::Post);
    assert_eq!(r.url, "https://example.org/api/v1/timelines/home");
    assert_eq!(r.body, "x=1");
}

#[test]
fn tag_prints_with_hash() {
    let t = mastodon::entities::Tag { name: "rust".to_string(), url: "u".to_string() };
    assert_eq!(t.to_string(), "#rust");
}

#[test]
fn server_error_prints_its_message() {
    let e = mastodon::entities::ServerError { error: "Record not found".to_string() };
    assert_eq!(e.to_string(), "server error: Record not found");
    assert_eq!(e.description(), "server error");
}

#[test]
fn new_status_request() {
    let s = NewStatus::new("hello".to_string());
    assert_eq!(s.visibility, Visibility::Public);
    assert!(!s.sensitive);
    let j = s.to_json();
    match &j {
        Json::Object(fs) => {
            assert_eq!(fs[0].0, "status");
            assert_eq!(fs[4].1, Json::Str("public".to_string()));
        }
        other => panic!("unexpected {:?}", other),
    }
    assert_eq!(NewStatus::from_json(&j), Ok(s));
    let m = Mastodon::from_access_token("t".to_string(), "example.org");
    let r = m.post_status("{}".to_string());
    assert_eq!(r.method, Method::Post);
    assert_eq!(r.url, "https://example.org/api/v1/statuses");
    assert_eq!(r.body, "{}");
    assert_eq!(Endpoint::Statuses.path(), "/statuses");
}
