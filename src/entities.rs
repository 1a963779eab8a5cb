//! The records that the API hands out, with their JSON decoding and encoding.
use vstd::prelude::*;
use vstd::string::StringExecFns;
use crate::json::{
    Json, JsonV, DecodeError, FromJson, ToJson, view_res, fields_view, field_str,
    field_u64, field_bool, field_opt_str, field_opt_u64, field_rec, field_opt_rec,
    field_list, opt_str_view, opt_view, seq_view, get_str, get_u64, get_bool,
    get_opt_str, get_opt_u64, get_rec, get_opt_rec, get_list, index_from,
    lemma_object_view, JsonRecord, encode_list, encode_seq, lemma_list_round_trip, DeepCopy,
    copy_list, entry, opt_u64_json_spec, opt_u64_json, opt_rec_json, find_field,
    lemma_index_from_bounds,
};
use crate::nullbool::{field_null_bool, get_null_bool};

verus! {

/// Whether a string is the given literal.
pub fn str_is(s: &String, lit: &str) -> (r: bool)
    ensures
        r == (s@ == lit@),
{
    let l = lit.to_owned();
    *s == l
}


/// Writes an optional string.
fn opt_str_json(v: &Option<String>) -> (r: Json)
    ensures
        r@ == opt_str_json_spec(opt_str_view(*v)),
{
    match v {
        Some(s) => Json::Str(s.clone()),
        None => Json::Null,
    }
}

/// An optional string is written as the string, or as `null`.
pub open spec fn opt_str_json_spec(v: Option<Seq<char>>) -> JsonV {
    match v {
        Some(s) => JsonV::Str(s),
        None => JsonV::Null,
    }
}

/// Identifier of a status.
#[derive(Clone, Copy, Debug, PartialEq, Eq, Structural)]
pub struct StatusId(pub u64);

/// Identifier of an account.
#[derive(Clone, Copy, Debug, PartialEq, Eq, Structural)]
pub struct UserId(pub u64);

/// Identifier of a notification.
#[derive(Clone, Copy, Debug, PartialEq, Eq, Structural)]
pub struct NotificationId(pub u64);

/// The decimal digits of `n`, most significant first, without leading zeros.
pub open spec fn decimal_text(n: nat) -> Seq<char>
    decreases n,
{
    if n < 10 {
        seq![(('0' as u8) + (n as u8)) as char]
    } else {
        decimal_text(n / 10).push((('0' as u8) + ((n % 10) as u8)) as char)
    }
}

/// Relies on the `Display` impl of `u64`: decimal digits without sign,
/// padding or leading zeros.
#[verifier::external_body]
pub(crate) fn decimal(n: u64) -> (r: String)
    ensures
        r@ == decimal_text(n as nat),
{
    n.to_string()
}

impl StatusId {
    /// The identifier in decimal.
    pub fn to_string(&self) -> (r: String)
        ensures
            r@ == decimal_text(self.0 as nat),
    {
        decimal(self.0)
    }
}

impl UserId {
    /// The identifier in decimal.
    pub fn to_string(&self) -> (r: String)
        ensures
            r@ == decimal_text(self.0 as nat),
    {
        decimal(self.0)
    }
}

impl NotificationId {
    /// The identifier in decimal.
    pub fn to_string(&self) -> (r: String)
        ensures
            r@ == decimal_text(self.0 as nat),
    {
        decimal(self.0)
    }
}

/// The optional status identifier that an optional integer denotes.
pub open spec fn opt_status_id(o: Option<u64>) -> Option<StatusId> {
    match o {
        Some(n) => Some(StatusId(n)),
        None => None,
    }
}

/// The optional account identifier that an optional integer denotes.
pub open spec fn opt_user_id(o: Option<u64>) -> Option<UserId> {
    match o {
        Some(n) => Some(UserId(n)),
        None => None,
    }
}

/// The integer behind an optional status identifier.
pub open spec fn status_id_num(o: Option<StatusId>) -> Option<u64> {
    match o {
        Some(x) => Some(x.0),
        None => None,
    }
}

/// The integer behind an optional account identifier.
pub open spec fn user_id_num(o: Option<UserId>) -> Option<u64> {
    match o {
        Some(x) => Some(x.0),
        None => None,
    }
}

/// Who may see a status.
#[derive(Clone, Copy, Debug, PartialEq, Eq, Structural)]
pub enum Visibility {
    Public,
    Unlisted,
    Private,
    Direct,
}

impl View for Visibility {
    type V = Visibility;

    open spec fn view(&self) -> Visibility {
        *self
    }
}

impl FromJson for Visibility {
    open spec fn decode_spec(j: JsonV) -> Result<Visibility, DecodeError> {
        match j {
            JsonV::Str(s) => if s == "public"@ {
                Ok(Visibility::Public)
            } else if s == "unlisted"@ {
                Ok(Visibility::Unlisted)
            } else if s == "private"@ {
                Ok(Visibility::Private)
            } else if s == "direct"@ {
                Ok(Visibility::Direct)
            } else {
                Err(DecodeError::UnknownVariant("visibility"))
            },
            _ => Err(DecodeError::InvalidType("visibility")),
        }
    }

    fn from_json(j: &Json) -> (r: Result<Visibility, DecodeError>) {
        match j {
            Json::Str(s) => if str_is(s, "public") {
                Ok(Visibility::Public)
            } else if str_is(s, "unlisted") {
                Ok(Visibility::Unlisted)
            } else if str_is(s, "private") {
                Ok(Visibility::Private)
            } else if str_is(s, "direct") {
                Ok(Visibility::Direct)
            } else {
                Err(DecodeError::UnknownVariant("visibility"))
            },
            _ => Err(DecodeError::InvalidType("visibility")),
        }
    }
}

impl ToJson for Visibility {
    open spec fn encode_spec(v: Visibility) -> JsonV {
        JsonV::Str(
            match v {
                Visibility::Public => "public"@,
                Visibility::Unlisted => "unlisted"@,
                Visibility::Private => "private"@,
                Visibility::Direct => "direct"@,
            },
        )
    }

    fn to_json(&self) -> (j: Json) {
        let s = match self {
            Visibility::Public => "public",
            Visibility::Unlisted => "unlisted",
            Visibility::Private => "private",
            Visibility::Direct => "direct",
        };
        Json::Str(s.to_owned())
    }
}

impl DeepCopy for Visibility {
    fn deep_copy(&self) -> (r: Visibility) {
        *self
    }
}

impl JsonRecord for Visibility {
    proof fn lemma_round_trip(v: Visibility) {
        reveal_strlit("public");
        reveal_strlit("unlisted");
        reveal_strlit("private");
        reveal_strlit("direct");
        assert("public"@.len() == 6 && "unlisted"@.len() == 8);
        assert("private"@.len() == 7 && "direct"@.len() == 6);
        assert("public"@[0] != "direct"@[0]);
    }
}

/// A hashtag.
#[derive(Clone, Debug, PartialEq, Eq)]
pub struct Tag {
    pub name: String,
    pub url: String,
}

/// The model of a [`Tag`].
pub ghost struct TagV {
    pub name: Seq<char>,
    pub url: Seq<char>,
}

impl View for Tag {
    type V = TagV;

    open spec fn view(&self) -> TagV {
        TagV {
            name: self.name@,
            url: self.url@,
        }
    }
}

impl FromJson for Tag {
    open spec fn decode_spec(j: JsonV) -> Result<TagV, DecodeError> {
        match j {
            JsonV::Object(fs) => {
                let x_name = field_str(fs, "name");
                let x_url = field_str(fs, "url");
                if let Err(e) = x_name {
                    Err(e)
                } else if let Err(e) = x_url {
                    Err(e)
                } else {
                    Ok(TagV {
                        name: x_name->Ok_0,
                        url: x_url->Ok_0,
                    })
                }
            },
            _ => Err(DecodeError::NotAnObject),
        }
    }

    fn from_json(j: &Json) -> (r: Result<Tag, DecodeError>) {
        match j {
            Json::Object(fs) => {
                proof { lemma_object_view(*fs); }
                let name = match get_str(fs, "name") {
                    Ok(v) => v,
                    Err(e) => return Err(e),
                };
                let url = match get_str(fs, "url") {
                    Ok(v) => v,
                    Err(e) => return Err(e),
                };
                Ok(Tag {
                    name,
                    url,
                })
            },
            _ => Err(DecodeError::NotAnObject),
        }
    }
}

impl ToJson for Tag {
    open spec fn encode_spec(v: TagV) -> JsonV {
        JsonV::Object(seq![
            ("name"@, JsonV::Str(v.name)),
            ("url"@, JsonV::Str(v.url)),
        ])
    }

    fn to_json(&self) -> (j: Json) {
        let mut fs: Vec<(String, Json)> = Vec::new();
        fs.push(entry("name", Json::Str(self.name.clone())));
        fs.push(entry("url", Json::Str(self.url.clone())));
        proof { lemma_object_view(fs); }
        let j = Json::Object(fs);
        assert(fields_view(fs@) =~= Self::encode_spec(self@)->Object_0);
        j
    }
}

impl Tag {
    /// The hashtag as written in a status: `#` and its name.
    pub fn to_string(&self) -> (r: String)
        ensures
            r@ == "#"@ + self.name@,
    {
        let mut s = String::from_str("#");
        s.append(self.name.as_str());
        s
    }
}

impl JsonRecord for Tag {
    proof fn lemma_round_trip(v: TagV) {
        reveal_strlit("name");
        reveal_strlit("url");
        assert("name"@.len() == 4);
        assert("url"@.len() == 3);
        reveal_with_fuel(index_from, 3);
    }
}

impl DeepCopy for Tag {
    fn deep_copy(&self) -> (r: Tag) {
        Tag {
            name: self.name.clone(),
            url: self.url.clone(),
        }
    }
}

/// A mention of an account inside a status.
#[derive(Clone, Debug, PartialEq, Eq)]
pub struct Mention {
    pub id: UserId,
    pub url: String,
    pub username: String,
    pub acct: String,
}

/// The model of a [`Mention`].
pub ghost struct MentionV {
    pub id: UserId,
    pub url: Seq<char>,
    pub username: Seq<char>,
    pub acct: Seq<char>,
}

impl View for Mention {
    type V = MentionV;

    open spec fn view(&self) -> MentionV {
        MentionV {
            id: self.id,
            url: self.url@,
            username: self.username@,
            acct: self.acct@,
        }
    }
}

impl FromJson for Mention {
    open spec fn decode_spec(j: JsonV) -> Result<MentionV, DecodeError> {
        match j {
            JsonV::Object(fs) => {
                let x_id = field_u64(fs, "id");
                let x_url = field_str(fs, "url");
                let x_username = field_str(fs, "username");
                let x_acct = field_str(fs, "acct");
                if let Err(e) = x_id {
                    Err(e)
                } else if let Err(e) = x_url {
                    Err(e)
                } else if let Err(e) = x_username {
                    Err(e)
                } else if let Err(e) = x_acct {
                    Err(e)
                } else {
                    Ok(MentionV {
                        id: UserId(x_id->Ok_0),
                        url: x_url->Ok_0,
                        username: x_username->Ok_0,
                        acct: x_acct->Ok_0,
                    })
                }
            },
            _ => Err(DecodeError::NotAnObject),
        }
    }

    fn from_json(j: &Json) -> (r: Result<Mention, DecodeError>) {
        match j {
            Json::Object(fs) => {
                proof { lemma_object_view(*fs); }
                let id = match get_u64(fs, "id") {
                    Ok(v) => v,
                    Err(e) => return Err(e),
                };
                let url = match get_str(fs, "url") {
                    Ok(v) => v,
                    Err(e) => return Err(e),
                };
                let username = match get_str(fs, "username") {
                    Ok(v) => v,
                    Err(e) => return Err(e),
                };
                let acct = match get_str(fs, "acct") {
                    Ok(v) => v,
                    Err(e) => return Err(e),
                };
                Ok(Mention {
                    id: UserId(id),
                    url,
                    username,
                    acct,
                })
            },
            _ => Err(DecodeError::NotAnObject),
        }
    }
}

impl ToJson for Mention {
    open spec fn encode_spec(v: MentionV) -> JsonV {
        JsonV::Object(seq![
            ("id"@, JsonV::Number(Some(v.id.0))),
            ("url"@, JsonV::Str(v.url)),
            ("username"@, JsonV::Str(v.username)),
            ("acct"@, JsonV::Str(v.acct)),
        ])
    }

    fn to_json(&self) -> (j: Json) {
        let mut fs: Vec<(String, Json)> = Vec::new();
        fs.push(entry("id", Json::Number(Some(self.id.0))));
        fs.push(entry("url", Json::Str(self.url.clone())));
        fs.push(entry("username", Json::Str(self.username.clone())));
        fs.push(entry("acct", Json::Str(self.acct.clone())));
        proof { lemma_object_view(fs); }
        let j = Json::Object(fs);
        assert(fields_view(fs@) =~= Self::encode_spec(self@)->Object_0);
        j
    }
}

impl JsonRecord for Mention {
    proof fn lemma_round_trip(v: MentionV) {
        reveal_strlit("id");
        reveal_strlit("url");
        reveal_strlit("username");
        reveal_strlit("acct");
        assert("id"@.len() == 2);
        assert("url"@.len() == 3);
        assert("username"@.len() == 8);
        assert("acct"@.len() == 4);
        reveal_with_fuel(index_from, 5);
    }
}

impl DeepCopy for Mention {
    fn deep_copy(&self) -> (r: Mention) {
        Mention {
            id: self.id,
            url: self.url.clone(),
            username: self.username.clone(),
            acct: self.acct.clone(),
        }
    }
}

/// The application a status was posted from.
#[derive(Clone, Debug, PartialEq, Eq)]
pub struct Application {
    pub name: String,
    pub website: Option<String>,
}

/// The model of a [`Application`].
pub ghost struct ApplicationV {
    pub name: Seq<char>,
    pub website: Option<Seq<char>>,
}

impl View for Application {
    type V = ApplicationV;

    open spec fn view(&self) -> ApplicationV {
        ApplicationV {
            name: self.name@,
            website: opt_str_view(self.website),
        }
    }
}

impl FromJson for Application {
    open spec fn decode_spec(j: JsonV) -> Result<ApplicationV, DecodeError> {
        match j {
            JsonV::Object(fs) => {
                let x_name = field_str(fs, "name");
                let x_website = field_opt_str(fs, "website");
                if let Err(e) = x_name {
                    Err(e)
                } else if let Err(e) = x_website {
                    Err(e)
                } else {
                    Ok(ApplicationV {
                        name: x_name->Ok_0,
                        website: x_website->Ok_0,
                    })
                }
            },
            _ => Err(DecodeError::NotAnObject),
        }
    }

    fn from_json(j: &Json) -> (r: Result<Application, DecodeError>) {
        match j {
            Json::Object(fs) => {
                proof { lemma_object_view(*fs); }
                let name = match get_str(fs, "name") {
                    Ok(v) => v,
                    Err(e) => return Err(e),
                };
                let website = match get_opt_str(fs, "website") {
                    Ok(v) => v,
                    Err(e) => return Err(e),
                };
                Ok(Application {
                    name,
                    website,
                })
            },
            _ => Err(DecodeError::NotAnObject),
        }
    }
}

impl ToJson for Application {
    open spec fn encode_spec(v: ApplicationV) -> JsonV {
        JsonV::Object(seq![
            ("name"@, JsonV::Str(v.name)),
            ("website"@, opt_str_json_spec(v.website)),
        ])
    }

    fn to_json(&self) -> (j: Json) {
        let mut fs: Vec<(String, Json)> = Vec::new();
        fs.push(entry("name", Json::Str(self.name.clone())));
        fs.push(entry("website", opt_str_json(&self.website)));
        proof { lemma_object_view(fs); }
        let j = Json::Object(fs);
        assert(fields_view(fs@) =~= Self::encode_spec(self@)->Object_0);
        j
    }
}

impl JsonRecord for Application {
    proof fn lemma_round_trip(v: ApplicationV) {
        reveal_strlit("name");
        reveal_strlit("website");
        assert("name"@.len() == 4);
        assert("website"@.len() == 7);
        reveal_with_fuel(index_from, 3);
    }
}

impl DeepCopy for Application {
    fn deep_copy(&self) -> (r: Application) {
        Application {
            name: self.name.clone(),
            website: match &self.website {
                Some(x) => Some(x.clone()),
                None => None,
            },
        }
    }
}

/// A server of the network.
#[derive(Clone, Debug, PartialEq, Eq)]
pub struct Instance {
    pub uri: String,
    pub title: String,
    pub description: String,
    pub email: String,
}

/// The model of a [`Instance`].
pub ghost struct InstanceV {
    pub uri: Seq<char>,
    pub title: Seq<char>,
    pub description: Seq<char>,
    pub email: Seq<char>,
}

impl View for Instance {
    type V = InstanceV;

    open spec fn view(&self) -> InstanceV {
        InstanceV {
            uri: self.uri@,
            title: self.title@,
            description: self.description@,
            email: self.email@,
        }
    }
}

impl FromJson for Instance {
    open spec fn decode_spec(j: JsonV) -> Result<InstanceV, DecodeError> {
        match j {
            JsonV::Object(fs) => {
                let x_uri = field_str(fs, "uri");
                let x_title = field_str(fs, "title");
                let x_description = field_str(fs, "description");
                let x_email = field_str(fs, "email");
                if let Err(e) = x_uri {
                    Err(e)
                } else if let Err(e) = x_title {
                    Err(e)
                } else if let Err(e) = x_description {
                    Err(e)
                } else if let Err(e) = x_email {
                    Err(e)
                } else {
                    Ok(InstanceV {
                        uri: x_uri->Ok_0,
                        title: x_title->Ok_0,
                        description: x_description->Ok_0,
                        email: x_email->Ok_0,
                    })
                }
            },
            _ => Err(DecodeError::NotAnObject),
        }
    }

    fn from_json(j: &Json) -> (r: Result<Instance, DecodeError>) {
        match j {
            Json::Object(fs) => {
                proof { lemma_object_view(*fs); }
                let uri = match get_str(fs, "uri") {
                    Ok(v) => v,
                    Err(e) => return Err(e),
                };
                let title = match get_str(fs, "title") {
                    Ok(v) => v,
                    Err(e) => return Err(e),
                };
                let description = match get_str(fs, "description") {
                    Ok(v) => v,
                    Err(e) => return Err(e),
                };
                let email = match get_str(fs, "email") {
                    Ok(v) => v,
                    Err(e) => return Err(e),
                };
                Ok(Instance {
                    uri,
                    title,
                    description,
                    email,
                })
            },
            _ => Err(DecodeError::NotAnObject),
        }
    }
}

impl ToJson for Instance {
    open spec fn encode_spec(v: InstanceV) -> JsonV {
        JsonV::Object(seq![
            ("uri"@, JsonV::Str(v.uri)),
            ("title"@, JsonV::Str(v.title)),
            ("description"@, JsonV::Str(v.description)),
            ("email"@, JsonV::Str(v.email)),
        ])
    }

    fn to_json(&self) -> (j: Json) {
        let mut fs: Vec<(String, Json)> = Vec::new();
        fs.push(entry("uri", Json::Str(self.uri.clone())));
        fs.push(entry("title", Json::Str(self.title.clone())));
        fs.push(entry("description", Json::Str(self.description.clone())));
        fs.push(entry("email", Json::Str(self.email.clone())));
        proof { lemma_object_view(fs); }
        let j = Json::Object(fs);
        assert(fields_view(fs@) =~= Self::encode_spec(self@)->Object_0);
        j
    }
}

impl JsonRecord for Instance {
    proof fn lemma_round_trip(v: InstanceV) {
        reveal_strlit("uri");
        reveal_strlit("title");
        reveal_strlit("description");
        reveal_strlit("email");
        assert("uri"@.len() == 3);
        assert("title"@.len() == 5);
        assert("description"@.len() == 11);
        assert("email"@.len() == 5);
        assert("title"@[0] != "email"@[0]);
        reveal_with_fuel(index_from, 5);
    }
}

impl DeepCopy for Instance {
    fn deep_copy(&self) -> (r: Instance) {
        Instance {
            uri: self.uri.clone(),
            title: self.title.clone(),
            description: self.description.clone(),
            email: self.email.clone(),
        }
    }
}

/// An error that the server reports in place of a result.
#[derive(Clone, Debug, PartialEq, Eq)]
pub struct ServerError {
    pub error: String,
}

/// The model of a [`ServerError`].
pub ghost struct ServerErrorV {
    pub error: Seq<char>,
}

impl View for ServerError {
    type V = ServerErrorV;

    open spec fn view(&self) -> ServerErrorV {
        ServerErrorV {
            error: self.error@,
        }
    }
}

impl FromJson for ServerError {
    open spec fn decode_spec(j: JsonV) -> Result<ServerErrorV, DecodeError> {
        match j {
            JsonV::Object(fs) => {
                let x_error = field_str(fs, "error");
                if let Err(e) = x_error {
                    Err(e)
                } else {
                    Ok(ServerErrorV {
                        error: x_error->Ok_0,
                    })
                }
            },
            _ => Err(DecodeError::NotAnObject),
        }
    }

    fn from_json(j: &Json) -> (r: Result<ServerError, DecodeError>) {
        match j {
            Json::Object(fs) => {
                proof { lemma_object_view(*fs); }
                let error = match get_str(fs, "error") {
                    Ok(v) => v,
                    Err(e) => return Err(e),
                };
                Ok(ServerError {
                    error,
                })
            },
            _ => Err(DecodeError::NotAnObject),
        }
    }
}

impl ToJson for ServerError {
    open spec fn encode_spec(v: ServerErrorV) -> JsonV {
        JsonV::Object(seq![
            ("error"@, JsonV::Str(v.error)),
        ])
    }

    fn to_json(&self) -> (j: Json) {
        let mut fs: Vec<(String, Json)> = Vec::new();
        fs.push(entry("error", Json::Str(self.error.clone())));
        proof { lemma_object_view(fs); }
        let j = Json::Object(fs);
        assert(fields_view(fs@) =~= Self::encode_spec(self@)->Object_0);
        j
    }
}

impl ServerError {
    /// The error as a sentence: `server error: ` and the server's message.
    pub fn to_string(&self) -> (r: String)
        ensures
            r@ == "server error: "@ + self.error@,
    {
        let mut s = String::from_str("server error: ");
        s.append(self.error.as_str());
        s
    }

    /// A short description of the kind of error.
    pub fn description(&self) -> (r: &'static str)
        ensures
            r@ == "server error"@,
    {
        "server error"
    }
}

impl JsonRecord for ServerError {
    proof fn lemma_round_trip(v: ServerErrorV) {
        reveal_strlit("error");
        assert("error"@.len() == 5);
        reveal_with_fuel(index_from, 2);
    }
}

impl DeepCopy for ServerError {
    fn deep_copy(&self) -> (r: ServerError) {
        ServerError {
            error: self.error.clone(),
        }
    }
}

/// An account of the instance or of another one.
#[derive(Clone, Debug, PartialEq, Eq)]
pub struct Account {
    pub id: UserId,
    pub username: String,
    pub acct: String,
    pub display_name: String,
    pub note: String,
    pub url: String,
    pub avatar: String,
    pub header: String,
    pub locked: bool,
    pub created_at: String,
    pub followers_count: u64,
    pub following_count: u64,
    pub statuses_count: u64,
}

/// The model of a [`Account`].
pub ghost struct AccountV {
    pub id: UserId,
    pub username: Seq<char>,
    pub acct: Seq<char>,
    pub display_name: Seq<char>,
    pub note: Seq<char>,
    pub url: Seq<char>,
    pub avatar: Seq<char>,
    pub header: Seq<char>,
    pub locked: bool,
    pub created_at: Seq<char>,
    pub followers_count: u64,
    pub following_count: u64,
    pub statuses_count: u64,
}

impl View for Account {
    type V = AccountV;

    open spec fn view(&self) -> AccountV {
        AccountV {
            id: self.id,
            username: self.username@,
            acct: self.acct@,
            display_name: self.display_name@,
            note: self.note@,
            url: self.url@,
            avatar: self.avatar@,
            header: self.header@,
            locked: self.locked,
            created_at: self.created_at@,
            followers_count: self.followers_count,
            following_count: self.following_count,
            statuses_count: self.statuses_count,
        }
    }
}

impl FromJson for Account {
    open spec fn decode_spec(j: JsonV) -> Result<AccountV, DecodeError> {
        match j {
            JsonV::Object(fs) => {
                let x_id = field_u64(fs, "id");
                let x_username = field_str(fs, "username");
                let x_acct = field_str(fs, "acct");
                let x_display_name = field_str(fs, "display_name");
                let x_note = field_str(fs, "note");
                let x_url = field_str(fs, "url");
                let x_avatar = field_str(fs, "avatar");
                let x_header = field_str(fs, "header");
                let x_locked = field_bool(fs, "locked");
                let x_created_at = field_str(fs, "created_at");
                let x_followers_count = field_u64(fs, "followers_count");
                let x_following_count = field_u64(fs, "following_count");
                let x_statuses_count = field_u64(fs, "statuses_count");
                if let Err(e) = x_id {
                    Err(e)
                } else if let Err(e) = x_username {
                    Err(e)
                } else if let Err(e) = x_acct {
                    Err(e)
                } else if let Err(e) = x_display_name {
                    Err(e)
                } else if let Err(e) = x_note {
                    Err(e)
                } else if let Err(e) = x_url {
                    Err(e)
                } else if let Err(e) = x_avatar {
                    Err(e)
                } else if let Err(e) = x_header {
                    Err(e)
                } else if let Err(e) = x_locked {
                    Err(e)
                } else if let Err(e) = x_created_at {
                    Err(e)
                } else if let Err(e) = x_followers_count {
                    Err(e)
                } else if let Err(e) = x_following_count {
                    Err(e)
                } else if let Err(e) = x_statuses_count {
                    Err(e)
                } else {
                    Ok(AccountV {
                        id: UserId(x_id->Ok_0),
                        username: x_username->Ok_0,
                        acct: x_acct->Ok_0,
                        display_name: x_display_name->Ok_0,
                        note: x_note->Ok_0,
                        url: x_url->Ok_0,
                        avatar: x_avatar->Ok_0,
                        header: x_header->Ok_0,
                        locked: x_locked->Ok_0,
                        created_at: x_created_at->Ok_0,
                        followers_count: x_followers_count->Ok_0,
                        following_count: x_following_count->Ok_0,
                        statuses_count: x_statuses_count->Ok_0,
                    })
                }
            },
            _ => Err(DecodeError::NotAnObject),
        }
    }

    fn from_json(j: &Json) -> (r: Result<Account, DecodeError>) {
        match j {
            Json::Object(fs) => {
                proof { lemma_object_view(*fs); }
                let id = match get_u64(fs, "id") {
                    Ok(v) => v,
                    Err(e) => return Err(e),
                };
                let username = match get_str(fs, "username") {
                    Ok(v) => v,
                    Err(e) => return Err(e),
                };
                let acct = match get_str(fs, "acct") {
                    Ok(v) => v,
                    Err(e) => return Err(e),
                };
                let display_name = match get_str(fs, "display_name") {
                    Ok(v) => v,
                    Err(e) => return Err(e),
                };
                let note = match get_str(fs, "note") {
                    Ok(v) => v,
                    Err(e) => return Err(e),
                };
                let url = match get_str(fs, "url") {
                    Ok(v) => v,
                    Err(e) => return Err(e),
                };
                let avatar = match get_str(fs, "avatar") {
                    Ok(v) => v,
                    Err(e) => return Err(e),
                };
                let header = match get_str(fs, "header") {
                    Ok(v) => v,
                    Err(e) => return Err(e),
                };
                let locked = match get_bool(fs, "locked") {
                    Ok(v) => v,
                    Err(e) => return Err(e),
                };
                let created_at = match get_str(fs, "created_at") {
                    Ok(v) => v,
                    Err(e) => return Err(e),
                };
                let followers_count = match get_u64(fs, "followers_count") {
                    Ok(v) => v,
                    Err(e) => return Err(e),
                };
                let following_count = match get_u64(fs, "following_count") {
                    Ok(v) => v,
                    Err(e) => return Err(e),
                };
                let statuses_count = match get_u64(fs, "statuses_count") {
                    Ok(v) => v,
                    Err(e) => return Err(e),
                };
                Ok(Account {
                    id: UserId(id),
                    username,
                    acct,
                    display_name,
                    note,
                    url,
                    avatar,
                    header,
                    locked,
                    created_at,
                    followers_count,
                    following_count,
                    statuses_count,
                })
            },
            _ => Err(DecodeError::NotAnObject),
        }
    }
}

impl ToJson for Account {
    open spec fn encode_spec(v: AccountV) -> JsonV {
        JsonV::Object(seq![
            ("id"@, JsonV::Number(Some(v.id.0))),
            ("username"@, JsonV::Str(v.username)),
            ("acct"@, JsonV::Str(v.acct)),
            ("display_name"@, JsonV::Str(v.display_name)),
            ("note"@, JsonV::Str(v.note)),
            ("url"@, JsonV::Str(v.url)),
            ("avatar"@, JsonV::Str(v.avatar)),
            ("header"@, JsonV::Str(v.header)),
            ("locked"@, JsonV::Bool(v.locked)),
            ("created_at"@, JsonV::Str(v.created_at)),
            ("followers_count"@, JsonV::Number(Some(v.followers_count))),
            ("following_count"@, JsonV::Number(Some(v.following_count))),
            ("statuses_count"@, JsonV::Number(Some(v.statuses_count))),
        ])
    }

    fn to_json(&self) -> (j: Json) {
        let mut fs: Vec<(String, Json)> = Vec::new();
        fs.push(entry("id", Json::Number(Some(self.id.0))));
        fs.push(entry("username", Json::Str(self.username.clone())));
        fs.push(entry("acct", Json::Str(self.acct.clone())));
        fs.push(entry("display_name", Json::Str(self.display_name.clone())));
        fs.push(entry("note", Json::Str(self.note.clone())));
        fs.push(entry("url", Json::Str(self.url.clone())));
        fs.push(entry("avatar", Json::Str(self.avatar.clone())));
        fs.push(entry("header", Json::Str(self.header.clone())));
        fs.push(entry("locked", Json::Bool(self.locked)));
        fs.push(entry("created_at", Json::Str(self.created_at.clone())));
        fs.push(entry("followers_count", Json::Number(Some(self.followers_count))));
        fs.push(entry("following_count", Json::Number(Some(self.following_count))));
        fs.push(entry("statuses_count", Json::Number(Some(self.statuses_count))));
        proof { lemma_object_view(fs); }
        let j = Json::Object(fs);
        assert(fields_view(fs@) =~= Self::encode_spec(self@)->Object_0);
        j
    }
}

impl JsonRecord for Account {
    proof fn lemma_round_trip(v: AccountV) {
        reveal_strlit("id");
        reveal_strlit("username");
        reveal_strlit("acct");
        reveal_strlit("display_name");
        reveal_strlit("note");
        reveal_strlit("url");
        reveal_strlit("avatar");
        reveal_strlit("header");
        reveal_strlit("locked");
        reveal_strlit("created_at");
        reveal_strlit("followers_count");
        reveal_strlit("following_count");
        reveal_strlit("statuses_count");
        assert("id"@.len() == 2);
        assert("username"@.len() == 8);
        assert("acct"@.len() == 4);
        assert("display_name"@.len() == 12);
        assert("note"@.len() == 4);
        assert("url"@.len() == 3);
        assert("avatar"@.len() == 6);
        assert("header"@.len() == 6);
        assert("locked"@.len() == 6);
        assert("created_at"@.len() == 10);
        assert("followers_count"@.len() == 15);
        assert("following_count"@.len() == 15);
        assert("statuses_count"@.len() == 14);
        assert("acct"@[0] != "note"@[0]);
        assert("avatar"@[0] != "header"@[0]);
        assert("avatar"@[0] != "locked"@[0]);
        assert("header"@[0] != "locked"@[0]);
        assert("followers_count"@[6] != "following_count"@[6]);
        reveal_with_fuel(index_from, 14);
    }
}

impl DeepCopy for Account {
    fn deep_copy(&self) -> (r: Account) {
        Account {
            id: self.id,
            username: self.username.clone(),
            acct: self.acct.clone(),
            display_name: self.display_name.clone(),
            note: self.note.clone(),
            url: self.url.clone(),
            avatar: self.avatar.clone(),
            header: self.header.clone(),
            locked: self.locked,
            created_at: self.created_at.clone(),
            followers_count: self.followers_count,
            following_count: self.following_count,
            statuses_count: self.statuses_count,
        }
    }
}


/// A media file attached to a status, by its kind.
#[derive(Clone, Debug, PartialEq, Eq)]
pub enum MediaAttachment {
    Image { url: String, preview_url: String },
    Video { url: String, preview_url: String },
    GifV { url: String, preview_url: String },
}

/// The model of a [`MediaAttachment`].
pub ghost enum MediaAttachmentV {
    Image { url: Seq<char>, preview_url: Seq<char> },
    Video { url: Seq<char>, preview_url: Seq<char> },
    GifV { url: Seq<char>, preview_url: Seq<char> },
}

impl View for MediaAttachment {
    type V = MediaAttachmentV;

    open spec fn view(&self) -> MediaAttachmentV {
        match self {
            MediaAttachment::Image { url, preview_url } => MediaAttachmentV::Image {
                url: url@,
                preview_url: preview_url@,
            },
            MediaAttachment::Video { url, preview_url } => MediaAttachmentV::Video {
                url: url@,
                preview_url: preview_url@,
            },
            MediaAttachment::GifV { url, preview_url } => MediaAttachmentV::GifV {
                url: url@,
                preview_url: preview_url@,
            },
        }
    }
}

/// The kind of media that a `type` field names, if it names one.
pub open spec fn media_kind(s: Seq<char>) -> Option<u8> {
    if s == "image"@ {
        Some(0)
    } else if s == "video"@ {
        Some(1)
    } else if s == "gifv"@ {
        Some(2)
    } else {
        None
    }
}

impl FromJson for MediaAttachment {
    /// The `type` field picks the variant; `url` and `preview_url` follow.
    open spec fn decode_spec(j: JsonV) -> Result<MediaAttachmentV, DecodeError> {
        match j {
            JsonV::Object(fs) => {
                let kind = field_str(fs, "type");
                let url = field_str(fs, "url");
                let preview_url = field_str(fs, "preview_url");
                if let Err(e) = kind {
                    Err(e)
                } else if media_kind(kind->Ok_0) is None {
                    Err(DecodeError::UnknownVariant("type"))
                } else if let Err(e) = url {
                    Err(e)
                } else if let Err(e) = preview_url {
                    Err(e)
                } else if media_kind(kind->Ok_0) == Some(0u8) {
                    Ok(MediaAttachmentV::Image { url: url->Ok_0, preview_url: preview_url->Ok_0 })
                } else if media_kind(kind->Ok_0) == Some(1u8) {
                    Ok(MediaAttachmentV::Video { url: url->Ok_0, preview_url: preview_url->Ok_0 })
                } else {
                    Ok(MediaAttachmentV::GifV { url: url->Ok_0, preview_url: preview_url->Ok_0 })
                }
            },
            _ => Err(DecodeError::NotAnObject),
        }
    }

    fn from_json(j: &Json) -> (r: Result<MediaAttachment, DecodeError>) {
        match j {
            Json::Object(fs) => {
                proof { lemma_object_view(*fs); }
                let kind = match get_str(fs, "type") {
                    Ok(v) => v,
                    Err(e) => return Err(e),
                };
                let k: u8 = if str_is(&kind, "image") {
                    0
                } else if str_is(&kind, "video") {
                    1
                } else if str_is(&kind, "gifv") {
                    2
                } else {
                    return Err(DecodeError::UnknownVariant("type"));
                };
                let url = match get_str(fs, "url") {
                    Ok(v) => v,
                    Err(e) => return Err(e),
                };
                let preview_url = match get_str(fs, "preview_url") {
                    Ok(v) => v,
                    Err(e) => return Err(e),
                };
                if k == 0 {
                    Ok(MediaAttachment::Image { url, preview_url })
                } else if k == 1 {
                    Ok(MediaAttachment::Video { url, preview_url })
                } else {
                    Ok(MediaAttachment::GifV { url, preview_url })
                }
            },
            _ => Err(DecodeError::NotAnObject),
        }
    }
}

impl ToJson for MediaAttachment {
    open spec fn encode_spec(v: MediaAttachmentV) -> JsonV {
        match v {
            MediaAttachmentV::Image { url, preview_url } => media_json("image"@, url, preview_url),
            MediaAttachmentV::Video { url, preview_url } => media_json("video"@, url, preview_url),
            MediaAttachmentV::GifV { url, preview_url } => media_json("gifv"@, url, preview_url),
        }
    }

    fn to_json(&self) -> (j: Json) {
        let (kind, url, preview_url) = match self {
            MediaAttachment::Image { url, preview_url } => ("image", url, preview_url),
            MediaAttachment::Video { url, preview_url } => ("video", url, preview_url),
            MediaAttachment::GifV { url, preview_url } => ("gifv", url, preview_url),
        };
        let mut fs: Vec<(String, Json)> = Vec::new();
        fs.push(entry("type", Json::Str(kind.to_owned())));
        fs.push(entry("url", Json::Str(url.clone())));
        fs.push(entry("preview_url", Json::Str(preview_url.clone())));
        proof { lemma_object_view(fs); }
        let j = Json::Object(fs);
        assert(fields_view(fs@) =~= Self::encode_spec(self@)->Object_0);
        j
    }
}

/// A media attachment is an object whose `type` field names its kind.
pub open spec fn media_json(kind: Seq<char>, url: Seq<char>, preview_url: Seq<char>) -> JsonV {
    JsonV::Object(seq![
        ("type"@, JsonV::Str(kind)),
        ("url"@, JsonV::Str(url)),
        ("preview_url"@, JsonV::Str(preview_url)),
    ])
}

impl JsonRecord for MediaAttachment {
    proof fn lemma_round_trip(v: MediaAttachmentV) {
        reveal_strlit("type");
        reveal_strlit("url");
        reveal_strlit("preview_url");
        reveal_strlit("image");
        reveal_strlit("video");
        reveal_strlit("gifv");
        assert("type"@.len() == 4 && "url"@.len() == 3 && "preview_url"@.len() == 11);
        assert("image"@.len() == 5 && "video"@.len() == 5 && "gifv"@.len() == 4);
        assert("image"@[0] != "video"@[0]);
        reveal_with_fuel(index_from, 4);
    }
}

impl DeepCopy for MediaAttachment {
    fn deep_copy(&self) -> (r: MediaAttachment) {
        match self {
            MediaAttachment::Image { url, preview_url } => MediaAttachment::Image {
                url: url.clone(),
                preview_url: preview_url.clone(),
            },
            MediaAttachment::Video { url, preview_url } => MediaAttachment::Video {
                url: url.clone(),
                preview_url: preview_url.clone(),
            },
            MediaAttachment::GifV { url, preview_url } => MediaAttachment::GifV {
                url: url.clone(),
                preview_url: preview_url.clone(),
            },
        }
    }
}

/// A status: a post, or the reblog of one.
#[derive(Debug, PartialEq, Eq)]
pub struct Status {
    pub id: StatusId,
    pub uri: String,
    pub url: String,
    pub account: Account,
    pub in_reply_to_id: Option<StatusId>,
    pub in_reply_to_account_id: Option<UserId>,
    /// The status that this one reblogs, if it is a reblog.
    pub reblog: Option<Box<Status>>,
    pub content: String,
    pub created_at: String,
    pub reblogs_count: u64,
    pub favourites_count: u64,
    pub reblogged: bool,
    pub favourited: bool,
    pub sensitive: bool,
    pub spoiler_text: Option<String>,
    pub visibility: Visibility,
    pub media_attachments: Vec<MediaAttachment>,
    pub mentions: Vec<Mention>,
    pub tags: Vec<Tag>,
    pub application: Option<Application>,
}

/// The model of a [`Status`].
pub ghost struct StatusV {
    pub id: StatusId,
    pub uri: Seq<char>,
    pub url: Seq<char>,
    pub account: AccountV,
    pub in_reply_to_id: Option<StatusId>,
    pub in_reply_to_account_id: Option<UserId>,
    pub reblog: Option<Box<StatusV>>,
    pub content: Seq<char>,
    pub created_at: Seq<char>,
    pub reblogs_count: u64,
    pub favourites_count: u64,
    pub reblogged: bool,
    pub favourited: bool,
    pub sensitive: bool,
    pub spoiler_text: Option<Seq<char>>,
    pub visibility: Visibility,
    pub media_attachments: Seq<MediaAttachmentV>,
    pub mentions: Seq<MentionV>,
    pub tags: Seq<TagV>,
    pub application: Option<ApplicationV>,
}

/// The model of a status, with the model of the status it reblogs.
pub open spec fn status_view(s: Status) -> StatusV
    decreases s,
{
    StatusV {
            id: s.id,
            uri: s.uri@,
            url: s.url@,
            account: s.account@,
            in_reply_to_id: s.in_reply_to_id,
            in_reply_to_account_id: s.in_reply_to_account_id,
            reblog: match s.reblog { Some(b) => Some(Box::new(status_view(*b))), None => None },
            content: s.content@,
            created_at: s.created_at@,
            reblogs_count: s.reblogs_count,
            favourites_count: s.favourites_count,
            reblogged: s.reblogged,
            favourited: s.favourited,
            sensitive: s.sensitive,
            spoiler_text: opt_str_view(s.spoiler_text),
            visibility: s.visibility@,
            media_attachments: seq_view(s.media_attachments@),
            mentions: seq_view(s.mentions@),
            tags: seq_view(s.tags@),
            application: opt_view(s.application),
        }
}

impl View for Status {
    type V = StatusV;

    open spec fn view(&self) -> StatusV {
        status_view(*self)
    }
}

/// What reading `j` as a status gives.
pub open spec fn status_of(j: JsonV) -> Result<StatusV, DecodeError>
    decreases j,
{
    match j {
                JsonV::Object(fs) => {
                    let x_id = field_u64(fs, "id");
                    let x_uri = field_str(fs, "uri");
                    let x_url = field_str(fs, "url");
                    let x_account = field_rec::<Account>(fs, "account");
                    let x_in_reply_to_id = field_opt_u64(fs, "in_reply_to_id");
                    let x_in_reply_to_account_id = field_opt_u64(fs, "in_reply_to_account_id");
                    let x_reblog = match index_from(fs, "reblog"@, 0) {
                        Some(i) => if 0 <= i < fs.len() && !(fs[i].1 is Null) {
                            match status_of(fs[i].1) {
                                Ok(s) => Ok(Some(Box::new(s))),
                                Err(e) => Err(e),
                            }
                        } else {
                            Ok(None)
                        },
                        None => Ok(None),
                    };
                    let x_content = field_str(fs, "content");
                    let x_created_at = field_str(fs, "created_at");
                    let x_reblogs_count = field_u64(fs, "reblogs_count");
                    let x_favourites_count = field_u64(fs, "favourites_count");
                    let x_reblogged = field_null_bool(fs, "reblogged");
                    let x_favourited = field_null_bool(fs, "favourited");
                    let x_sensitive = field_bool(fs, "sensitive");
                    let x_spoiler_text = field_opt_str(fs, "spoiler_text");
                    let x_visibility = field_rec::<Visibility>(fs, "visibility");
                    let x_media_attachments = field_list::<MediaAttachment>(fs, "media_attachments");
                    let x_mentions = field_list::<Mention>(fs, "mentions");
                    let x_tags = field_list::<Tag>(fs, "tags");
                    let x_application = field_opt_rec::<Application>(fs, "application");
                    if let Err(e) = x_id {
                        Err(e)
                    } else if let Err(e) = x_uri {
                        Err(e)
                    } else if let Err(e) = x_url {
                        Err(e)
                    } else if let Err(e) = x_account {
                        Err(e)
                    } else if let Err(e) = x_in_reply_to_id {
                        Err(e)
                    } else if let Err(e) = x_in_reply_to_account_id {
                        Err(e)
                    } else if let Err(e) = x_reblog {
                        Err(e)
                    } else if let Err(e) = x_content {
                        Err(e)
                    } else if let Err(e) = x_created_at {
                        Err(e)
                    } else if let Err(e) = x_reblogs_count {
                        Err(e)
                    } else if let Err(e) = x_favourites_count {
                        Err(e)
                    } else if let Err(e) = x_reblogged {
                        Err(e)
                    } else if let Err(e) = x_favourited {
                        Err(e)
                    } else if let Err(e) = x_sensitive {
                        Err(e)
                    } else if let Err(e) = x_spoiler_text {
                        Err(e)
                    } else if let Err(e) = x_visibility {
                        Err(e)
                    } else if let Err(e) = x_media_attachments {
                        Err(e)
                    } else if let Err(e) = x_mentions {
                        Err(e)
                    } else if let Err(e) = x_tags {
                        Err(e)
                    } else if let Err(e) = x_application {
                        Err(e)
                    } else {
                        Ok(StatusV {
                            id: StatusId(x_id->Ok_0),
                            uri: x_uri->Ok_0,
                            url: x_url->Ok_0,
                            account: x_account->Ok_0,
                            in_reply_to_id: opt_status_id(x_in_reply_to_id->Ok_0),
                            in_reply_to_account_id: opt_user_id(x_in_reply_to_account_id->Ok_0),
                            reblog: x_reblog->Ok_0,
                            content: x_content->Ok_0,
                            created_at: x_created_at->Ok_0,
                            reblogs_count: x_reblogs_count->Ok_0,
                            favourites_count: x_favourites_count->Ok_0,
                            reblogged: x_reblogged->Ok_0,
                            favourited: x_favourited->Ok_0,
                            sensitive: x_sensitive->Ok_0,
                            spoiler_text: x_spoiler_text->Ok_0,
                            visibility: x_visibility->Ok_0,
                            media_attachments: x_media_attachments->Ok_0,
                            mentions: x_mentions->Ok_0,
                            tags: x_tags->Ok_0,
                            application: x_application->Ok_0,
                        })
                    }
                },
                _ => Err(DecodeError::NotAnObject),
            }
}

/// Reads a status, and the status it reblogs, if any.
fn status_from_json(j: &Json) -> (r: Result<Status, DecodeError>)
    ensures
        view_res(r) == status_of(j@),
    decreases j,
{
    match j {
                Json::Object(fs) => {
                    proof { lemma_object_view(*fs); }
                    let id = match get_u64(fs, "id") {
                        Ok(v) => v,
                        Err(e) => return Err(e),
                    };
                    let uri = match get_str(fs, "uri") {
                        Ok(v) => v,
                        Err(e) => return Err(e),
                    };
                    let url = match get_str(fs, "url") {
                        Ok(v) => v,
                        Err(e) => return Err(e),
                    };
                    let account = match get_rec::<Account>(fs, "account") {
                        Ok(v) => v,
                        Err(e) => return Err(e),
                    };
                    let in_reply_to_id = match get_opt_u64(fs, "in_reply_to_id") {
                        Ok(v) => v,
                        Err(e) => return Err(e),
                    };
                    let in_reply_to_account_id = match get_opt_u64(fs, "in_reply_to_account_id") {
                        Ok(v) => v,
                        Err(e) => return Err(e),
                    };
                    let reblog = match find_field(fs, "reblog") {
                        Some(i) => {
                            proof { lemma_index_from_bounds(fields_view(fs@), "reblog"@, 0); }
                            match &fs[i].1 {
                                Json::Null => None,
                                v => match status_from_json(v) {
                                    Ok(s) => Some(Box::new(s)),
                                    Err(e) => return Err(e),
                                },
                            }
                        },
                        None => None,
                    };
                    let content = match get_str(fs, "content") {
                        Ok(v) => v,
                        Err(e) => return Err(e),
                    };
                    let created_at = match get_str(fs, "created_at") {
                        Ok(v) => v,
                        Err(e) => return Err(e),
                    };
                    let reblogs_count = match get_u64(fs, "reblogs_count") {
                        Ok(v) => v,
                        Err(e) => return Err(e),
                    };
                    let favourites_count = match get_u64(fs, "favourites_count") {
                        Ok(v) => v,
                        Err(e) => return Err(e),
                    };
                    let reblogged = match get_null_bool(fs, "reblogged") {
                        Ok(v) => v,
                        Err(e) => return Err(e),
                    };
                    let favourited = match get_null_bool(fs, "favourited") {
                        Ok(v) => v,
                        Err(e) => return Err(e),
                    };
                    let sensitive = match get_bool(fs, "sensitive") {
                        Ok(v) => v,
                        Err(e) => return Err(e),
                    };
                    let spoiler_text = match get_opt_str(fs, "spoiler_text") {
                        Ok(v) => v,
                        Err(e) => return Err(e),
                    };
                    let visibility = match get_rec::<Visibility>(fs, "visibility") {
                        Ok(v) => v,
                        Err(e) => return Err(e),
                    };
                    let media_attachments = match get_list::<MediaAttachment>(fs, "media_attachments") {
                        Ok(v) => v,
                        Err(e) => return Err(e),
                    };
                    let mentions = match get_list::<Mention>(fs, "mentions") {
                        Ok(v) => v,
                        Err(e) => return Err(e),
                    };
                    let tags = match get_list::<Tag>(fs, "tags") {
                        Ok(v) => v,
                        Err(e) => return Err(e),
                    };
                    let application = match get_opt_rec::<Application>(fs, "application") {
                        Ok(v) => v,
                        Err(e) => return Err(e),
                    };
                    Ok(Status {
                        id: StatusId(id),
                        uri,
                        url,
                        account,
                        in_reply_to_id: match in_reply_to_id {
                            Some(n) => Some(StatusId(n)),
                            None => None,
                        },
                        in_reply_to_account_id: match in_reply_to_account_id {
                            Some(n) => Some(UserId(n)),
                            None => None,
                        },
                        reblog,
                        content,
                        created_at,
                        reblogs_count,
                        favourites_count,
                        reblogged,
                        favourited,
                        sensitive,
                        spoiler_text,
                        visibility,
                        media_attachments,
                        mentions,
                        tags,
                        application,
                    })
                },
                _ => Err(DecodeError::NotAnObject),
            }
}

/// The JSON model that a status is written as.
pub open spec fn status_json(v: StatusV) -> JsonV
    decreases v,
{
    JsonV::Object(seq![
                ("id"@, JsonV::Number(Some(v.id.0))),
                ("uri"@, JsonV::Str(v.uri)),
                ("url"@, JsonV::Str(v.url)),
                ("account"@, Account::encode_spec(v.account)),
                ("in_reply_to_id"@, opt_u64_json_spec(status_id_num(v.in_reply_to_id))),
                ("in_reply_to_account_id"@, opt_u64_json_spec(user_id_num(v.in_reply_to_account_id))),
                ("reblog"@, match v.reblog { Some(b) => status_json(*b), None => JsonV::Null }),
                ("content"@, JsonV::Str(v.content)),
                ("created_at"@, JsonV::Str(v.created_at)),
                ("reblogs_count"@, JsonV::Number(Some(v.reblogs_count))),
                ("favourites_count"@, JsonV::Number(Some(v.favourites_count))),
                ("reblogged"@, JsonV::Bool(v.reblogged)),
                ("favourited"@, JsonV::Bool(v.favourited)),
                ("sensitive"@, JsonV::Bool(v.sensitive)),
                ("spoiler_text"@, opt_str_json_spec(v.spoiler_text)),
                ("visibility"@, Visibility::encode_spec(v.visibility)),
                ("media_attachments"@, encode_seq::<MediaAttachment>(v.media_attachments)),
                ("mentions"@, encode_seq::<Mention>(v.mentions)),
                ("tags"@, encode_seq::<Tag>(v.tags)),
                ("application"@, opt_rec_json::<Application>(v.application)),
            ])
}

/// Writes a status, and the status it reblogs, if any.
fn status_to_json(s: &Status) -> (j: Json)
    ensures
        j@ == status_json(s@),
    decreases s,
{
    let mut fs: Vec<(String, Json)> = Vec::new();
            fs.push(entry("id", Json::Number(Some(s.id.0))));
            fs.push(entry("uri", Json::Str(s.uri.clone())));
            fs.push(entry("url", Json::Str(s.url.clone())));
            fs.push(entry("account", s.account.to_json()));
            fs.push(entry("in_reply_to_id", opt_u64_json(match s.in_reply_to_id {
                Some(x) => Some(x.0),
                None => None,
            })));
            fs.push(entry("in_reply_to_account_id", opt_u64_json(match s.in_reply_to_account_id {
                Some(x) => Some(x.0),
                None => None,
            })));
            fs.push(entry("reblog", match &s.reblog {
                Some(b) => status_to_json(b),
                None => Json::Null,
            }));
            fs.push(entry("content", Json::Str(s.content.clone())));
            fs.push(entry("created_at", Json::Str(s.created_at.clone())));
            fs.push(entry("reblogs_count", Json::Number(Some(s.reblogs_count))));
            fs.push(entry("favourites_count", Json::Number(Some(s.favourites_count))));
            fs.push(entry("reblogged", Json::Bool(s.reblogged)));
            fs.push(entry("favourited", Json::Bool(s.favourited)));
            fs.push(entry("sensitive", Json::Bool(s.sensitive)));
            fs.push(entry("spoiler_text", opt_str_json(&s.spoiler_text)));
            fs.push(entry("visibility", s.visibility.to_json()));
            fs.push(entry("media_attachments", encode_list(&s.media_attachments)));
            fs.push(entry("mentions", encode_list(&s.mentions)));
            fs.push(entry("tags", encode_list(&s.tags)));
            fs.push(entry("application", match &s.application {
                Some(x) => x.to_json(),
                None => Json::Null,
            }));
            proof { lemma_object_view(fs); }
            let j = Json::Object(fs);
            assert(fields_view(fs@) =~= status_json(status_view(*s))->Object_0);
            j
}

/// Copies a status, and the status it reblogs, if any.
fn status_copy(s: &Status) -> (r: Status)
    ensures
        r@ == s@,
    decreases s,
{
    Status {
                id: s.id,
                uri: s.uri.clone(),
                url: s.url.clone(),
                account: s.account.deep_copy(),
                in_reply_to_id: s.in_reply_to_id,
                in_reply_to_account_id: s.in_reply_to_account_id,
                reblog: match &s.reblog {
                    Some(b) => Some(Box::new(status_copy(b))),
                    None => None,
                },
                content: s.content.clone(),
                created_at: s.created_at.clone(),
                reblogs_count: s.reblogs_count,
                favourites_count: s.favourites_count,
                reblogged: s.reblogged,
                favourited: s.favourited,
                sensitive: s.sensitive,
                spoiler_text: match &s.spoiler_text {
                    Some(x) => Some(x.clone()),
                    None => None,
                },
                visibility: s.visibility.deep_copy(),
                media_attachments: copy_list(&s.media_attachments),
                mentions: copy_list(&s.mentions),
                tags: copy_list(&s.tags),
                application: match &s.application {
                    Some(x) => Some(x.deep_copy()),
                    None => None,
                },
            }
}

/// Decoding the encoding of any status gives that status back.
pub proof fn lemma_status_round_trip(v: StatusV)
    ensures
        status_of(status_json(v)) == Ok::<StatusV, DecodeError>(v),
    decreases v,
{
    reveal_strlit("id");
    reveal_strlit("uri");
    reveal_strlit("url");
    reveal_strlit("account");
    reveal_strlit("in_reply_to_id");
    reveal_strlit("in_reply_to_account_id");
    reveal_strlit("reblog");
    reveal_strlit("content");
    reveal_strlit("created_at");
    reveal_strlit("reblogs_count");
    reveal_strlit("favourites_count");
    reveal_strlit("reblogged");
    reveal_strlit("favourited");
    reveal_strlit("sensitive");
    reveal_strlit("spoiler_text");
    reveal_strlit("visibility");
    reveal_strlit("media_attachments");
    reveal_strlit("mentions");
    reveal_strlit("tags");
    reveal_strlit("application");
    assert("id"@.len() == 2);
    assert("uri"@.len() == 3);
    assert("url"@.len() == 3);
    assert("account"@.len() == 7);
    assert("in_reply_to_id"@.len() == 14);
    assert("in_reply_to_account_id"@.len() == 22);
    assert("reblog"@.len() == 6);
    assert("content"@.len() == 7);
    assert("created_at"@.len() == 10);
    assert("reblogs_count"@.len() == 13);
    assert("favourites_count"@.len() == 16);
    assert("reblogged"@.len() == 9);
    assert("favourited"@.len() == 10);
    assert("sensitive"@.len() == 9);
    assert("spoiler_text"@.len() == 12);
    assert("visibility"@.len() == 10);
    assert("media_attachments"@.len() == 17);
    assert("mentions"@.len() == 8);
    assert("tags"@.len() == 4);
    assert("application"@.len() == 11);
    assert("uri"@[2] != "url"@[2]);
    assert("account"@[0] != "content"@[0]);
    assert("created_at"@[0] != "favourited"@[0]);
    assert("created_at"@[0] != "visibility"@[0]);
    assert("reblogged"@[0] != "sensitive"@[0]);
    assert("favourited"@[0] != "visibility"@[0]);
    let fs = status_json(v)->Object_0;
    assert(index_from(fs, "id"@, 0) == Some(0int)) by {
        reveal_with_fuel(index_from, 2);
    }
    assert(index_from(fs, "uri"@, 0) == Some(1int)) by {
        reveal_with_fuel(index_from, 3);
    }
    assert(index_from(fs, "url"@, 0) == Some(2int)) by {
        reveal_with_fuel(index_from, 4);
    }
    assert(index_from(fs, "account"@, 0) == Some(3int)) by {
        reveal_with_fuel(index_from, 5);
    }
    assert(index_from(fs, "in_reply_to_id"@, 0) == Some(4int)) by {
        reveal_with_fuel(index_from, 6);
    }
    assert(index_from(fs, "in_reply_to_account_id"@, 0) == Some(5int)) by {
        reveal_with_fuel(index_from, 7);
    }
    assert(index_from(fs, "reblog"@, 0) == Some(6int)) by {
        reveal_with_fuel(index_from, 8);
    }
    assert(index_from(fs, "content"@, 0) == Some(7int)) by {
        reveal_with_fuel(index_from, 9);
    }
    assert(index_from(fs, "created_at"@, 0) == Some(8int)) by {
        reveal_with_fuel(index_from, 10);
    }
    assert(index_from(fs, "reblogs_count"@, 0) == Some(9int)) by {
        reveal_with_fuel(index_from, 11);
    }
    assert(index_from(fs, "favourites_count"@, 0) == Some(10int)) by {
        reveal_with_fuel(index_from, 12);
    }
    assert(index_from(fs, "reblogged"@, 0) == Some(11int)) by {
        reveal_with_fuel(index_from, 13);
    }
    assert(index_from(fs, "favourited"@, 0) == Some(12int)) by {
        reveal_with_fuel(index_from, 14);
    }
    assert(index_from(fs, "sensitive"@, 0) == Some(13int)) by {
        reveal_with_fuel(index_from, 15);
    }
    assert(index_from(fs, "spoiler_text"@, 0) == Some(14int)) by {
        reveal_with_fuel(index_from, 16);
    }
    assert(index_from(fs, "visibility"@, 0) == Some(15int)) by {
        reveal_with_fuel(index_from, 17);
    }
    assert(index_from(fs, "media_attachments"@, 0) == Some(16int)) by {
        reveal_with_fuel(index_from, 18);
    }
    assert(index_from(fs, "mentions"@, 0) == Some(17int)) by {
        reveal_with_fuel(index_from, 19);
    }
    assert(index_from(fs, "tags"@, 0) == Some(18int)) by {
        reveal_with_fuel(index_from, 20);
    }
    assert(index_from(fs, "application"@, 0) == Some(19int)) by {
        reveal_with_fuel(index_from, 21);
    }
    Account::lemma_round_trip(v.account);
    if let Some(b) = v.reblog {
        lemma_status_round_trip(*b);
    }
    Visibility::lemma_round_trip(v.visibility);
    lemma_list_round_trip::<MediaAttachment>(v.media_attachments);
    lemma_list_round_trip::<Mention>(v.mentions);
    lemma_list_round_trip::<Tag>(v.tags);
    if let Some(x) = v.application {
        Application::lemma_round_trip(x);
    }
}

impl FromJson for Status {
    open spec fn decode_spec(j: JsonV) -> Result<StatusV, DecodeError> {
        status_of(j)
    }

    fn from_json(j: &Json) -> (r: Result<Status, DecodeError>) {
        status_from_json(j)
    }
}

impl ToJson for Status {
    open spec fn encode_spec(v: StatusV) -> JsonV {
        status_json(v)
    }

    fn to_json(&self) -> (j: Json) {
        status_to_json(self)
    }
}

impl JsonRecord for Status {
    proof fn lemma_round_trip(v: StatusV) {
        lemma_status_round_trip(v);
    }
}

impl Status {
    /// The status that this one reblogs, if it is a reblog.
    pub fn reblog(&self) -> (r: Option<Status>)
        ensures
            opt_view(r) == match self@.reblog {
                Some(b) => Some(*b),
                None => None,
            },
    {
        match &self.reblog {
            Some(b) => Some(status_copy(b)),
            None => None,
        }
    }
}

impl Clone for Status {
    fn clone(&self) -> (r: Status) {
        status_copy(self)
    }
}

impl DeepCopy for Status {
    fn deep_copy(&self) -> (r: Status) {
        status_copy(self)
    }
}


/// A status to be posted.
#[derive(Clone, Debug, PartialEq, Eq)]
pub struct NewStatus {
    pub status: String,
    pub in_reply_to_id: Option<StatusId>,
    pub sensitive: bool,
    pub spoiler_text: Option<String>,
    pub visibility: Visibility,
}

/// The model of a [`NewStatus`].
pub ghost struct NewStatusV {
    pub status: Seq<char>,
    pub in_reply_to_id: Option<StatusId>,
    pub sensitive: bool,
    pub spoiler_text: Option<Seq<char>>,
    pub visibility: Visibility,
}

impl View for NewStatus {
    type V = NewStatusV;

    open spec fn view(&self) -> NewStatusV {
        NewStatusV {
            status: self.status@,
            in_reply_to_id: self.in_reply_to_id,
            sensitive: self.sensitive,
            spoiler_text: opt_str_view(self.spoiler_text),
            visibility: self.visibility@,
        }
    }
}

impl FromJson for NewStatus {
    open spec fn decode_spec(j: JsonV) -> Result<NewStatusV, DecodeError> {
        match j {
            JsonV::Object(fs) => {
                let x_status = field_str(fs, "status");
                let x_in_reply_to_id = field_opt_u64(fs, "in_reply_to_id");
                let x_sensitive = field_bool(fs, "sensitive");
                let x_spoiler_text = field_opt_str(fs, "spoiler_text");
                let x_visibility = field_rec::<Visibility>(fs, "visibility");
                if let Err(e) = x_status {
                    Err(e)
                } else if let Err(e) = x_in_reply_to_id {
                    Err(e)
                } else if let Err(e) = x_sensitive {
                    Err(e)
                } else if let Err(e) = x_spoiler_text {
                    Err(e)
                } else if let Err(e) = x_visibility {
                    Err(e)
                } else {
                    Ok(NewStatusV {
                        status: x_status->Ok_0,
                        in_reply_to_id: opt_status_id(x_in_reply_to_id->Ok_0),
                        sensitive: x_sensitive->Ok_0,
                        spoiler_text: x_spoiler_text->Ok_0,
                        visibility: x_visibility->Ok_0,
                    })
                }
            },
            _ => Err(DecodeError::NotAnObject),
        }
    }

    fn from_json(j: &Json) -> (r: Result<NewStatus, DecodeError>) {
        match j {
            Json::Object(fs) => {
                proof { lemma_object_view(*fs); }
                let status = match get_str(fs, "status") {
                    Ok(v) => v,
                    Err(e) => return Err(e),
                };
                let in_reply_to_id = match get_opt_u64(fs, "in_reply_to_id") {
                    Ok(v) => v,
                    Err(e) => return Err(e),
                };
                let sensitive = match get_bool(fs, "sensitive") {
                    Ok(v) => v,
                    Err(e) => return Err(e),
                };
                let spoiler_text = match get_opt_str(fs, "spoiler_text") {
                    Ok(v) => v,
                    Err(e) => return Err(e),
                };
                let visibility = match get_rec::<Visibility>(fs, "visibility") {
                    Ok(v) => v,
                    Err(e) => return Err(e),
                };
                Ok(NewStatus {
                    status,
                    in_reply_to_id: match in_reply_to_id {
                        Some(n) => Some(StatusId(n)),
                        None => None,
                    },
                    sensitive,
                    spoiler_text,
                    visibility,
                })
            },
            _ => Err(DecodeError::NotAnObject),
        }
    }
}

impl ToJson for NewStatus {
    open spec fn encode_spec(v: NewStatusV) -> JsonV {
        JsonV::Object(seq![
            ("status"@, JsonV::Str(v.status)),
            ("in_reply_to_id"@, opt_u64_json_spec(status_id_num(v.in_reply_to_id))),
            ("sensitive"@, JsonV::Bool(v.sensitive)),
            ("spoiler_text"@, opt_str_json_spec(v.spoiler_text)),
            ("visibility"@, Visibility::encode_spec(v.visibility)),
        ])
    }

    fn to_json(&self) -> (j: Json) {
        let mut fs: Vec<(String, Json)> = Vec::new();
        fs.push(entry("status", Json::Str(self.status.clone())));
        fs.push(entry("in_reply_to_id", opt_u64_json(match self.in_reply_to_id {
            Some(x) => Some(x.0),
            None => None,
        })));
        fs.push(entry("sensitive", Json::Bool(self.sensitive)));
        fs.push(entry("spoiler_text", opt_str_json(&self.spoiler_text)));
        fs.push(entry("visibility", self.visibility.to_json()));
        proof { lemma_object_view(fs); }
        let j = Json::Object(fs);
        assert(fields_view(fs@) =~= Self::encode_spec(self@)->Object_0);
        j
    }
}

impl NewStatus {
    /// A public, not sensitive status with the given text that replies to nothing.
    pub fn new(status: String) -> (r: NewStatus)
        ensures
            r@ == (NewStatusV {
                status: status@,
                in_reply_to_id: None,
                sensitive: false,
                spoiler_text: None,
                visibility: Visibility::Public,
            }),
    {
        NewStatus {
            status,
            in_reply_to_id: None,
            sensitive: false,
            spoiler_text: None,
            visibility: Visibility::Public,
        }
    }
}

impl JsonRecord for NewStatus {
    proof fn lemma_round_trip(v: NewStatusV) {
        reveal_strlit("status");
        reveal_strlit("in_reply_to_id");
        reveal_strlit("sensitive");
        reveal_strlit("spoiler_text");
        reveal_strlit("visibility");
        assert("status"@.len() == 6);
        assert("in_reply_to_id"@.len() == 14);
        assert("sensitive"@.len() == 9);
        assert("spoiler_text"@.len() == 12);
        assert("visibility"@.len() == 10);
        reveal_with_fuel(index_from, 6);
        Visibility::lemma_round_trip(v.visibility);
    }
}

impl DeepCopy for NewStatus {
    fn deep_copy(&self) -> (r: NewStatus) {
        NewStatus {
            status: self.status.clone(),
            in_reply_to_id: self.in_reply_to_id,
            sensitive: self.sensitive,
            spoiler_text: match &self.spoiler_text {
                Some(x) => Some(x.clone()),
                None => None,
            },
            visibility: self.visibility.deep_copy(),
        }
    }
}


} // verus!
