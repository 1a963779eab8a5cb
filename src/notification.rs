//! Notifications: the one shape the server sends, and the closed set of
//! kinds that the library hands out.
use vstd::prelude::*;
use crate::json::{
    Json, JsonV, DecodeError, FromJson, ToJson, fields_view, field_str,
    field_u64, field_rec, field_opt_rec, opt_view, get_str, get_u64, get_rec, get_opt_rec,
    index_from, lemma_object_view, JsonRecord, DeepCopy, entry, opt_rec_json,
};
use crate::entities::{str_is, NotificationId, Account, AccountV, Status, StatusV};
use crate::errors::Error;

verus! {

/// A notification as the server sends it: one shape for every kind.
#[derive(Clone, Debug, PartialEq, Eq)]
pub struct RawNotification {
    /// The kind of notification, written as `type`.
    pub tag: String,
    pub id: NotificationId,
    pub created_at: String,
    pub account: Account,
    pub status: Option<Status>,
}

/// The model of a [`RawNotification`].
pub ghost struct RawNotificationV {
    pub tag: Seq<char>,
    pub id: NotificationId,
    pub created_at: Seq<char>,
    pub account: AccountV,
    pub status: Option<StatusV>,
}

impl View for RawNotification {
    type V = RawNotificationV;

    open spec fn view(&self) -> RawNotificationV {
        RawNotificationV {
            tag: self.tag@,
            id: self.id,
            created_at: self.created_at@,
            account: self.account@,
            status: opt_view(self.status),
        }
    }
}

impl FromJson for RawNotification {
    open spec fn decode_spec(j: JsonV) -> Result<RawNotificationV, DecodeError> {
        match j {
            JsonV::Object(fs) => {
                let x_tag = field_str(fs, "type");
                let x_id = field_u64(fs, "id");
                let x_created_at = field_str(fs, "created_at");
                let x_account = field_rec::<Account>(fs, "account");
                let x_status = field_opt_rec::<Status>(fs, "status");
                if let Err(e) = x_tag {
                    Err(e)
                } else if let Err(e) = x_id {
                    Err(e)
                } else if let Err(e) = x_created_at {
                    Err(e)
                } else if let Err(e) = x_account {
                    Err(e)
                } else if let Err(e) = x_status {
                    Err(e)
                } else {
                    Ok(RawNotificationV {
                        tag: x_tag->Ok_0,
                        id: NotificationId(x_id->Ok_0),
                        created_at: x_created_at->Ok_0,
                        account: x_account->Ok_0,
                        status: x_status->Ok_0,
                    })
                }
            },
            _ => Err(DecodeError::NotAnObject),
        }
    }

    fn from_json(j: &Json) -> (r: Result<RawNotification, DecodeError>) {
        match j {
            Json::Object(fs) => {
                proof { lemma_object_view(*fs); }
                let tag = match get_str(fs, "type") {
                    Ok(v) => v,
                    Err(e) => return Err(e),
                };
                let id = match get_u64(fs, "id") {
                    Ok(v) => v,
                    Err(e) => return Err(e),
                };
                let created_at = match get_str(fs, "created_at") {
                    Ok(v) => v,
                    Err(e) => return Err(e),
                };
                let account = match get_rec::<Account>(fs, "account") {
                    Ok(v) => v,
                    Err(e) => return Err(e),
                };
                let status = match get_opt_rec::<Status>(fs, "status") {
                    Ok(v) => v,
                    Err(e) => return Err(e),
                };
                Ok(RawNotification {
                    tag,
                    id: NotificationId(id),
                    created_at,
                    account,
                    status,
                })
            },
            _ => Err(DecodeError::NotAnObject),
        }
    }
}

impl ToJson for RawNotification {
    open spec fn encode_spec(v: RawNotificationV) -> JsonV {
        JsonV::Object(seq![
            ("type"@, JsonV::Str(v.tag)),
            ("id"@, JsonV::Number(Some(v.id.0))),
            ("created_at"@, JsonV::Str(v.created_at)),
            ("account"@, Account::encode_spec(v.account)),
            ("status"@, opt_rec_json::<Status>(v.status)),
        ])
    }

    fn to_json(&self) -> (j: Json) {
        let mut fs: Vec<(String, Json)> = Vec::new();
        fs.push(entry("type", Json::Str(self.tag.clone())));
        fs.push(entry("id", Json::Number(Some(self.id.0))));
        fs.push(entry("created_at", Json::Str(self.created_at.clone())));
        fs.push(entry("account", self.account.to_json()));
        fs.push(entry("status", match &self.status {
            Some(x) => x.to_json(),
            None => Json::Null,
        }));
        proof { lemma_object_view(fs); }
        let j = Json::Object(fs);
        assert(fields_view(fs@) =~= Self::encode_spec(self@)->Object_0);
        j
    }
}

impl JsonRecord for RawNotification {
    proof fn lemma_round_trip(v: RawNotificationV) {
        reveal_strlit("type");
        reveal_strlit("id");
        reveal_strlit("created_at");
        reveal_strlit("account");
        reveal_strlit("status");
        assert("type"@.len() == 4);
        assert("id"@.len() == 2);
        assert("created_at"@.len() == 10);
        assert("account"@.len() == 7);
        assert("status"@.len() == 6);
        reveal_with_fuel(index_from, 6);
        Account::lemma_round_trip(v.account);
        if let Some(x) = v.status {
            Status::lemma_round_trip(x);
        }
    }
}

impl DeepCopy for RawNotification {
    fn deep_copy(&self) -> (r: RawNotification) {
        RawNotification {
            tag: self.tag.clone(),
            id: self.id,
            created_at: self.created_at.clone(),
            account: self.account.deep_copy(),
            status: match &self.status {
                Some(x) => Some(x.deep_copy()),
                None => None,
            },
        }
    }
}


/// A notification, by kind. Favourites and reblogs always carry their status.
#[derive(Debug)]
pub enum Notification {
    Mention { id: NotificationId, created_at: String, account: Account },
    Follow { id: NotificationId, created_at: String, account: Account },
    Favourite { id: NotificationId, created_at: String, account: Account, status: Status },
    Reblog { id: NotificationId, created_at: String, account: Account, status: Status },
    Unknown { id: NotificationId, created_at: String },
}

/// The model of a [`Notification`].
pub ghost enum NotificationV {
    Mention { id: NotificationId, created_at: Seq<char>, account: AccountV },
    Follow { id: NotificationId, created_at: Seq<char>, account: AccountV },
    Favourite { id: NotificationId, created_at: Seq<char>, account: AccountV, status: StatusV },
    Reblog { id: NotificationId, created_at: Seq<char>, account: AccountV, status: StatusV },
    Unknown { id: NotificationId, created_at: Seq<char> },
}

impl View for Notification {
    type V = NotificationV;

    open spec fn view(&self) -> NotificationV {
        match self {
            Notification::Mention { id, created_at, account } => NotificationV::Mention {
                id: *id,
                created_at: created_at@,
                account: account@,
            },
            Notification::Follow { id, created_at, account } => NotificationV::Follow {
                id: *id,
                created_at: created_at@,
                account: account@,
            },
            Notification::Favourite { id, created_at, account, status } => NotificationV::Favourite {
                id: *id,
                created_at: created_at@,
                account: account@,
                status: status@,
            },
            Notification::Reblog { id, created_at, account, status } => NotificationV::Reblog {
                id: *id,
                created_at: created_at@,
                account: account@,
                status: status@,
            },
            Notification::Unknown { id, created_at } => NotificationV::Unknown {
                id: *id,
                created_at: created_at@,
            },
        }
    }
}

/// The kind that a wire record's `type` names: a status it carries is kept
/// for favourites and reblogs, which need one (`None` where it is missing),
/// and dropped for mentions and follows; any other name is unknown.
pub open spec fn normalize(rn: RawNotificationV) -> Option<NotificationV> {
    if rn.tag == "mention"@ {
        Some(NotificationV::Mention { id: rn.id, created_at: rn.created_at, account: rn.account })
    } else if rn.tag == "follow"@ {
        Some(NotificationV::Follow { id: rn.id, created_at: rn.created_at, account: rn.account })
    } else if rn.tag == "favourite"@ {
        match rn.status {
            Some(s) => Some(
                NotificationV::Favourite {
                    id: rn.id,
                    created_at: rn.created_at,
                    account: rn.account,
                    status: s,
                },
            ),
            None => None,
        }
    } else if rn.tag == "reblog"@ {
        match rn.status {
            Some(s) => Some(
                NotificationV::Reblog {
                    id: rn.id,
                    created_at: rn.created_at,
                    account: rn.account,
                    status: s,
                },
            ),
            None => None,
        }
    } else {
        Some(NotificationV::Unknown { id: rn.id, created_at: rn.created_at })
    }
}

impl Notification {
    /// Turns the wire record into its kind; a favourite or reblog without a
    /// status is an error, never an unknown notification.
    pub fn from(rn: RawNotification) -> (r: Result<Notification, Error>)
        ensures
            match normalize(rn@) {
                Some(n) => r matches Ok(x) && x@ == n,
                None => r == Err::<Notification, Error>(Error::MalformedNotification(rn.id)),
            },
    {
        let RawNotification { tag, id, created_at, account, status } = rn;
        if str_is(&tag, "mention") {
            Ok(Notification::Mention { id, created_at, account })
        } else if str_is(&tag, "follow") {
            Ok(Notification::Follow { id, created_at, account })
        } else if str_is(&tag, "favourite") {
            match status {
                Some(status) => Ok(Notification::Favourite { id, created_at, account, status }),
                None => Err(Error::MalformedNotification(id)),
            }
        } else if str_is(&tag, "reblog") {
            match status {
                Some(status) => Ok(Notification::Reblog { id, created_at, account, status }),
                None => Err(Error::MalformedNotification(id)),
            }
        } else {
            Ok(Notification::Unknown { id, created_at })
        }
    }
}

} // verus!
