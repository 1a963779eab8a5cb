use mastodon::entities::{
    Account, Application, Instance, MediaAttachment, Mention, ServerError, Status, StatusId, Tag,
    UserId, Visibility,
};
use mastodon::errors::Error;
use mastodon::json::{DecodeError, FromJson, Json, ToJson};
use mastodon::response::{decode_json, decode_notification, decode_response, decode_response_seq};
use mastodon::notification::Notification;

fn account_json(id: u64, name: &str) -> String {
    format!(
        r#"{{"id":{id},"username":"{name}","acct":"{name}@example.org","display_name":"{name}","note":"hi","url":"https://example.org/@{name}","avatar":"a.png","header":"h.png","locked":false,"created_at":"2017-04-01T00:00:00Z","followers_count":3,"following_count":4,"statuses_count":5}}"#
    )
}

fn status_json(id: u64, reblogged: &str) -> String {
    format!(
        r#"{{"id":{id},"uri":"tag:example.org,2017:{id}","url":"https://example.org/@alice/{id}","account":{acc},"in_reply_to_id":null,"in_reply_to_account_id":7,"reblog":null,"content":"<p>hello</p>","created_at":"2017-04-02T10:00:00Z","reblogs_count":2,"favourites_count":9,"reblogged":{reblogged},"favourited":null,"sensitive":true,"spoiler_text":"cw","visibility":"unlisted","media_attachments":[{{"type":"gifv","url":"m.mp4","preview_url":"m.png"}}],"mentions":[{{"id":7,"url":"https://example.org/@bob","username":"bob","acct":"bob"}}],"tags":[{{"name":"rust","url":"https://example.org/tags/rust"}}],"application":{{"name":"web","website":null}}}}"#,
        acc = account_json(1, "alice")
    )
}

#[test]
fn server_error_wins_over_target() {
    let r = decode_response::<Status>(br#"{"error":"Record not found"}"#);
    match r {
        Err(Error::Server(e)) => assert_eq!(e.error, "Record not found"),
        other => panic!("unexpected {:?}", other),
    }
}

#[test]
fn server_error_wins_for_sequences() {
    let r = decode_response_seq::<Account>(br#"{"error":"nope"}"#);
    match r {
        Err(Error::Server(e)) => assert_eq!(e.error, "nope"),
        other => panic!("unexpected {:?}", other),
    }
}

#[test]
fn valid_status_decodes_with_every_field() {
    let body = status_json(42, "null");
    let s = decode_response::<Status>(body.as_bytes()).unwrap();
    assert_eq!(s.id, StatusId(42));
    assert_eq!(s.uri, "tag:example.org,2017:42");
    assert_eq!(s.account.id, UserId(1));
    assert_eq!(s.account.username, "alice");
    assert_eq!(s.account.statuses_count, 5);
    assert_eq!(s.in_reply_to_id, None);
    assert_eq!(s.in_reply_to_account_id, Some(UserId(7)));
    assert!(s.reblog.is_none());
    assert_eq!(s.content, "<p>hello</p>");
    assert_eq!(s.reblogs_count, 2);
    assert_eq!(s.favourites_count, 9);
    assert!(!s.reblogged);
    assert!(!s.favourited);
    assert!(s.sensitive);
    assert_eq!(s.spoiler_text, Some("cw".to_string()));
    assert_eq!(s.visibility, Visibility::Unlisted);
    assert_eq!(
        s.media_attachments,
        vec![MediaAttachment::GifV { url: "m.mp4".to_string(), preview_url: "m.png".to_string() }]
    );
    assert_eq!(s.mentions.len(), 1);
    assert_eq!(s.mentions[0].username, "bob");
    assert_eq!(
        s.tags,
        vec![Tag { name: "rust".to_string(), url: "https://example.org/tags/rust".to_string() }]
    );
    assert_eq!(s.application, Some(Application { name: "web".to_string(), website: None }));
}

#[test]
fn reblogged_true_is_kept() {
    let body = status_json(1, "true");
    let s = decode_response::<Status>(body.as_bytes()).unwrap();
    assert!(s.reblogged);
}

#[test]
fn reblogged_as_string_is_a_decode_error() {
    let body = status_json(1, "\"yes\"");
    let r = decode_response::<Status>(body.as_bytes());
    assert_eq!(r, Err(Error::Decode(DecodeError::InvalidType("reblogged"))));
}

#[test]
fn unknown_shape_reports_the_target_diagnostic() {
    let r = decode_response::<Status>(br#"{"foo":123}"#);
    assert_eq!(r, Err(Error::Decode(DecodeError::MissingField("id"))));
}

#[test]
fn bytes_that_are_not_json_are_a_syntax_error() {
    let r = decode_response::<Status>(b"{not json");
    assert_eq!(r, Err(Error::Decode(DecodeError::Syntax)));
}

#[test]
fn non_object_is_reported() {
    let r = decode_response::<Account>(b"[1,2]");
    assert_eq!(r, Err(Error::Decode(DecodeError::NotAnObject)));
}

#[test]
fn non_array_for_a_sequence_is_reported() {
    let body = account_json(1, "a");
    let r = decode_response_seq::<Account>(body.as_bytes());
    assert_eq!(r, Err(Error::Decode(DecodeError::NotAnArray)));
}

#[test]
fn unknown_visibility_is_reported() {
    let body = status_json(1, "false").replace("\"unlisted\"", "\"secret\"");
    let r = decode_response::<Status>(body.as_bytes());
    assert_eq!(r, Err(Error::Decode(DecodeError::UnknownVariant("visibility"))));
}

#[test]
fn unknown_media_kind_is_reported() {
    let r = decode_response::<MediaAttachment>(br#"{"type":"audio","url":"u","preview_url":"p"}"#);
    assert_eq!(r, Err(Error::Decode(DecodeError::UnknownVariant("type"))));
}

#[test]
fn negative_count_is_an_invalid_type() {
    let body = account_json(1, "a").replace("\"followers_count\":3", "\"followers_count\":-3");
    let r = decode_response::<Account>(body.as_bytes());
    assert_eq!(r, Err(Error::Decode(DecodeError::InvalidType("followers_count"))));
}

#[test]
fn account_array_keeps_length_and_order() {
    let body = format!("[{},{},{}]", account_json(3, "c"), account_json(1, "a"), account_json(2, "b"));
    let v = decode_response_seq::<Account>(body.as_bytes()).unwrap();
    assert_eq!(v.len(), 3);
    assert_eq!(v[0].id, UserId(3));
    assert_eq!(v[1].id, UserId(1));
    assert_eq!(v[2].id, UserId(2));
    assert_eq!(v[2].username, "b");
}

#[test]
fn empty_array_is_an_empty_sequence() {
    let v = decode_response_seq::<Status>(b"[]").unwrap();
    assert!(v.is_empty());
}

#[test]
fn failing_item_fails_the_sequence() {
    let body = format!("[{},{{\"id\":5}}]", account_json(3, "c"));
    let r = decode_response_seq::<Account>(body.as_bytes());
    assert_eq!(r, Err(Error::Decode(DecodeError::MissingField("username"))));
}

#[test]
fn decoding_twice_gives_equal_results() {
    let body = status_json(8, "false");
    let a = decode_response::<Status>(body.as_bytes());
    let b = decode_response::<Status>(body.as_bytes());
    assert_eq!(a, b);
    let e1 = decode_response::<Status>(br#"{"foo":1}"#);
    let e2 = decode_response::<Status>(br#"{"foo":1}"#);
    assert_eq!(e1, e2);
}

#[test]
fn nested_reblog_decodes() {
    let inner = status_json(5, "false");
    let outer = status_json(6, "true").replace("\"reblog\":null", &format!("\"reblog\":{}", inner));
    let s = decode_response::<Status>(outer.as_bytes()).unwrap();
    let r = s.reblog().unwrap();
    assert_eq!(r.id, StatusId(5));
    assert!(r.reblog().is_none());
}

#[test]
fn status_round_trips_through_json() {
    let inner = status_json(5, "false");
    let outer = status_json(6, "true").replace("\"reblog\":null", &format!("\"reblog\":{}", inner));
    let s = decode_response::<Status>(outer.as_bytes()).unwrap();
    let back = Status::from_json(&s.to_json()).unwrap();
    assert_eq!(back, s);
}

#[test]
fn records_round_trip_through_json() {
    let a = decode_response::<Account>(account_json(9, "zed").as_bytes()).unwrap();
    assert_eq!(Account::from_json(&a.to_json()), Ok(a));
    let m = Mention { id: UserId(2), url: "u".to_string(), username: "n".to_string(), acct: "n@x".to_string() };
    assert_eq!(Mention::from_json(&m.to_json()), Ok(m));
    let i = Instance {
        uri: "example.org".to_string(),
        title: "Example".to_string(),
        description: "d".to_string(),
        email: "admin@example.org".to_string(),
    };
    assert_eq!(Instance::from_json(&i.to_json()), Ok(i));
    let app = Application { name: "x".to_string(), website: Some("https://x".to_string()) };
    assert_eq!(Application::from_json(&app.to_json()), Ok(app));
    let e = ServerError { error: "bad".to_string() };
    assert_eq!(ServerError::from_json(&e.to_json()), Ok(e));
    for v in [Visibility::Public, Visibility::Unlisted, Visibility::Private, Visibility::Direct] {
        assert_eq!(Visibility::from_json(&v.to_json()), Ok(v));
    }
    let img = MediaAttachment::Image { url: "i".to_string(), preview_url: "p".to_string() };
    assert_eq!(MediaAttachment::from_json(&img.to_json()), Ok(img));
}

#[test]
fn encoding_writes_the_wire_names() {
    let img = MediaAttachment::Video { url: "v".to_string(), preview_url: "p".to_string() };
    match img.to_json() {
        Json::Object(fs) => {
            assert_eq!(fs[0].0, "type");
            assert_eq!(fs[0].1, Json::Str("video".to_string()));
            assert_eq!(fs.len(), 3);
        }
        other => panic!("unexpected {:?}", other),
    }
    assert_eq!(Visibility::Direct.to_json(), Json::Str("direct".to_string()));
}

#[test]
fn decode_json_on_a_parsed_tree() {
    let tree = Json::Object(vec![("error".to_string(), Json::Str("gone".to_string()))]);
    match decode_json::<Account>(&tree) {
        Err(Error::Server(e)) => assert_eq!(e.error, "gone"),
        other => panic!("unexpected {:?}", other),
    }
}

fn notification_json(kind: &str, status: Option<String>) -> String {
    let status = match status {
        Some(s) => format!(",\"status\":{}", s),
        None => String::new(),
    };
    format!(
        r#"{{"type":"{kind}","id":77,"created_at":"2017-05-01T00:00:00Z","account":{acc}{status}}}"#,
        acc = account_json(4, "dan")
    )
}

#[test]
fn mention_ignores_its_status() {
    let body = notification_json("mention", Some(status_json(3, "false")));
    match decode_notification(body.as_bytes()).unwrap() {
        Notification::Mention { id, account, .. } => {
            assert_eq!(id.0, 77);
            assert_eq!(account.username, "dan");
        }
        other => panic!("unexpected {:?}", other),
    }
}

#[test]
fn follow_without_status() {
    let body = notification_json("follow", None);
    assert!(matches!(decode_notification(body.as_bytes()).unwrap(), Notification::Follow { .. }));
}

#[test]
fn favourite_keeps_its_status() {
    let body = notification_json("favourite", Some(status_json(3, "false")));
    match decode_notification(body.as_bytes()).unwrap() {
        Notification::Favourite { status, created_at, .. } => {
            assert_eq!(status.id, StatusId(3));
            assert_eq!(created_at, "2017-05-01T00:00:00Z");
        }
        other => panic!("unexpected {:?}", other),
    }
}

#[test]
fn favourite_without_status_is_malformed() {
    let body = notification_json("favourite", None);
    match decode_notification(body.as_bytes()) {
        Err(Error::MalformedNotification(id)) => assert_eq!(id.0, 77),
        other => panic!("unexpected {:?}", other),
    }
}

#[test]
fn reblog_with_null_status_is_malformed() {
    let body = notification_json("reblog", Some("null".to_string()));
    assert!(matches!(decode_notification(body.as_bytes()), Err(Error::MalformedNotification(_))));
}

#[test]
fn reblog_keeps_its_status() {
    let body = notification_json("reblog", Some(status_json(12, "true")));
    match decode_notification(body.as_bytes()).unwrap() {
        Notification::Reblog { status, .. } => assert_eq!(status.id, StatusId(12)),
        other => panic!("unexpected {:?}", other),
    }
}

#[test]
fn unknown_kind_keeps_id_and_time() {
    let body = notification_json("xyz", Some(status_json(3, "false")));
    match decode_notification(body.as_bytes()).unwrap() {
        Notification::Unknown { id, created_at } => {
            assert_eq!(id.0, 77);
            assert_eq!(created_at, "2017-05-01T00:00:00Z");
        }
        other => panic!("unexpected {:?}", other),
    }
}
