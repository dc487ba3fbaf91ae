use vstd::prelude::*;
use crate::envelope::WireRecord;
use crate::json::{
    lemma_lookup_first,
    field_ok, into_opt_array, into_opt_object, is_opt_text_list, lookup, opt_array_of,
    opt_int_of, opt_object_of, opt_text_json, opt_text_of, opt_text_to_json, opt_texts_to_json,
    read_bool, read_i32, read_opt_int, read_opt_text, read_texts, shape_ok, take, texts_of, Json,
    Shape,
};
use crate::transport::{decimal, decimal_text, Client, Method, Request};

verus! {

/// The entries of an object, with each name as its characters.
pub open spec fn named(e: Seq<(String, Json)>) -> Seq<(Seq<char>, Json)> {
    e.map_values(|p: (String, Json)| (p.0@, p.1))
}

/// Whether entry `i` of `e` is named `key` and holds `v`.
pub open spec fn entry_is(e: Seq<(String, Json)>, i: int, key: Seq<char>, v: Json) -> bool {
    e[i].0@ == key && e[i].1 == v
}

/// The fields of a subscriber that an update sends.
#[derive(Debug)]
pub struct SubscriberPayload {
    pub first_name: Option<String>,
    pub last_name: Option<String>,
    pub email: Option<String>,
    pub phone: Option<String>,
    pub avatar: Option<String>,
    pub subscriber_id: String,
}

/// One page of subscriber identifiers.
#[derive(Debug)]
pub struct SubscribersResponse {
    pub page: i32,
    pub total_count: i32,
    pub page_size: i32,
    pub data: Vec<String>,
}

/// The fields of a subscriber that a create sends, with free-form custom data.
#[derive(Debug)]
pub struct CreateSubscriberPayload {
    pub first_name: Option<String>,
    pub last_name: Option<String>,
    pub email: Option<String>,
    pub phone: Option<String>,
    pub avatar: Option<String>,
    pub subscriber_id: String,
    pub data: Option<Vec<(String, Json)>>,
}

/// A subscriber as the service returns it, from get, create, update and
/// credential updates alike.
#[derive(Debug)]
pub struct SubscriberRecord {
    pub id: Option<String>,
    pub organization_id: Option<String>,
    pub environment_id: Option<String>,
    pub channels: Option<Vec<Json>>,
    pub deleted: bool,
    pub created_at: Option<String>,
    pub first_name: Option<String>,
    pub last_name: Option<String>,
    pub subscriber_id: Option<String>,
    pub avatar: Option<String>,
    pub email: Option<String>,
    pub last_online_at: Option<String>,
    pub locale: Option<String>,
    pub phone: Option<String>,
    pub updated_at: Option<String>,
    pub version: Option<i64>,
    pub data: Option<Vec<(String, Json)>>,
}

pub type UpdateSubscriberResponse = SubscriberRecord;

pub type GetSubscriberResponse = SubscriberRecord;

pub type CreateSubscriberResponse = SubscriberRecord;

pub type UpdateCredentialsResponse = SubscriberRecord;

/// A provider and the credentials to register with it.
#[derive(Debug)]
pub struct UpdateCredentialsPayload {
    pub provider_id: String,
    pub integration_identifier: Option<String>,
    pub credentials: Credentials,
}

/// Credentials for one provider; which fields matter depends on the provider.
#[derive(Debug)]
pub struct Credentials {
    pub webhook_url: String,
    pub channel: Option<String>,
    pub device_tokens: Option<Vec<String>>,
    pub title: Option<String>,
    pub image_url: Option<String>,
    pub alert_uid: Option<String>,
    pub state: Option<String>,
    pub external_url: Option<String>,
}

/// The subscriber operations of the service.
#[derive(Clone, Debug)]
pub struct Subscribers {
    pub client: Client,
}

impl SubscriberPayload {
    /// The entries this payload is sent as, in order.
    pub open spec fn wire_entries(&self) -> Seq<(Seq<char>, Json)> {
        seq![
            ("firstName"@, opt_text_json(self.first_name)),
            ("lastName"@, opt_text_json(self.last_name)),
            ("email"@, opt_text_json(self.email)),
            ("phone"@, opt_text_json(self.phone)),
            ("avatar"@, opt_text_json(self.avatar)),
            ("subscriberId"@, Json::Text(self.subscriber_id)),
        ]
    }

    pub fn to_json(self) -> (r: Json)
        ensures
            r matches Json::Object(e) && named(e@) == self.wire_entries(),
    {
        let mut e: Vec<(String, Json)> = Vec::new();
        e.push((String::from_str("firstName"), opt_text_to_json(self.first_name)));
        e.push((String::from_str("lastName"), opt_text_to_json(self.last_name)));
        e.push((String::from_str("email"), opt_text_to_json(self.email)));
        e.push((String::from_str("phone"), opt_text_to_json(self.phone)));
        e.push((String::from_str("avatar"), opt_text_to_json(self.avatar)));
        e.push((String::from_str("subscriberId"), Json::Text(self.subscriber_id)));
        assert(named(e@) =~= self.wire_entries());
        Json::Object(e)
    }
}

impl CreateSubscriberPayload {
    /// The entries this payload is sent as, in order.
    pub open spec fn wire_entries(&self) -> Seq<(Seq<char>, Json)> {
        seq![
            ("firstName"@, opt_text_json(self.first_name)),
            ("lastName"@, opt_text_json(self.last_name)),
            ("email"@, opt_text_json(self.email)),
            ("phone"@, opt_text_json(self.phone)),
            ("avatar"@, opt_text_json(self.avatar)),
            ("subscriberId"@, Json::Text(self.subscriber_id)),
            (
                "data"@,
                match self.data {
                    Some(d) => Json::Object(d),
                    None => Json::Null,
                },
            ),
        ]
    }

    pub fn to_json(self) -> (r: Json)
        ensures
            r matches Json::Object(e) && named(e@) == self.wire_entries(),
    {
        let mut e: Vec<(String, Json)> = Vec::new();
        e.push((String::from_str("firstName"), opt_text_to_json(self.first_name)));
        e.push((String::from_str("lastName"), opt_text_to_json(self.last_name)));
        e.push((String::from_str("email"), opt_text_to_json(self.email)));
        e.push((String::from_str("phone"), opt_text_to_json(self.phone)));
        e.push((String::from_str("avatar"), opt_text_to_json(self.avatar)));
        e.push((String::from_str("subscriberId"), Json::Text(self.subscriber_id)));
        let data = match self.data {
            Some(d) => Json::Object(d),
            None => Json::Null,
        };
        e.push((String::from_str("data"), data));
        assert(named(e@) =~= self.wire_entries());
        Json::Object(e)
    }
}

impl Credentials {
    /// Whether `e` is the wire form of these credentials, entry by entry.
    pub open spec fn sent_as(&self, e: Seq<(String, Json)>) -> bool {
        &&& e.len() == 8
        &&& entry_is(e, 0, "webhookUrl"@, Json::Text(self.webhook_url))
        &&& entry_is(e, 1, "channel"@, opt_text_json(self.channel))
        &&& e[2].0@ == "deviceTokens"@ && is_opt_text_list(e[2].1, self.device_tokens)
        &&& entry_is(e, 3, "title"@, opt_text_json(self.title))
        &&& entry_is(e, 4, "imageUrl"@, opt_text_json(self.image_url))
        &&& entry_is(e, 5, "alertUid"@, opt_text_json(self.alert_uid))
        &&& entry_is(e, 6, "state"@, opt_text_json(self.state))
        &&& entry_is(e, 7, "externalUrl"@, opt_text_json(self.external_url))
    }

    pub fn to_json(self) -> (r: Json)
        ensures
            r matches Json::Object(e) && self.sent_as(e@),
    {
        let mut e: Vec<(String, Json)> = Vec::new();
        e.push((String::from_str("webhookUrl"), Json::Text(self.webhook_url)));
        e.push((String::from_str("channel"), opt_text_to_json(self.channel)));
        e.push((String::from_str("deviceTokens"), opt_texts_to_json(self.device_tokens)));
        e.push((String::from_str("title"), opt_text_to_json(self.title)));
        e.push((String::from_str("imageUrl"), opt_text_to_json(self.image_url)));
        e.push((String::from_str("alertUid"), opt_text_to_json(self.alert_uid)));
        e.push((String::from_str("state"), opt_text_to_json(self.state)));
        e.push((String::from_str("externalUrl"), opt_text_to_json(self.external_url)));
        Json::Object(e)
    }
}

impl UpdateCredentialsPayload {
    /// Whether `e` is the wire form of this payload, entry by entry.
    pub open spec fn sent_as(&self, e: Seq<(String, Json)>) -> bool {
        &&& e.len() == 3
        &&& entry_is(e, 0, "providerId"@, Json::Text(self.provider_id))
        &&& entry_is(e, 1, "integrationIdentifier"@, opt_text_json(self.integration_identifier))
        &&& e[2].0@ == "credentials"@
        &&& e[2].1 matches Json::Object(c) && self.credentials.sent_as(c@)
    }

    pub fn to_json(self) -> (r: Json)
        ensures
            r matches Json::Object(e) && self.sent_as(e@),
    {
        let mut e: Vec<(String, Json)> = Vec::new();
        e.push((String::from_str("providerId"), Json::Text(self.provider_id)));
        e.push(
            (
                String::from_str("integrationIdentifier"),
                opt_text_to_json(self.integration_identifier),
            ),
        );
        e.push((String::from_str("credentials"), self.credentials.to_json()));
        Json::Object(e)
    }
}

impl SubscriberRecord {
    /// The record that an accepted object decodes to.
    pub open spec fn record_of(e: Seq<(String, Json)>) -> SubscriberRecord {
        SubscriberRecord {
            id: opt_text_of(lookup(e, "_id"@)),
            organization_id: opt_text_of(lookup(e, "_organizationId"@)),
            environment_id: opt_text_of(lookup(e, "_environmentId"@)),
            channels: opt_array_of(lookup(e, "channels"@)),
            deleted: lookup(e, "deleted"@)->Some_0->Bool_0,
            created_at: opt_text_of(lookup(e, "createdAt"@)),
            first_name: opt_text_of(lookup(e, "firstName"@)),
            last_name: opt_text_of(lookup(e, "lastName"@)),
            subscriber_id: opt_text_of(lookup(e, "subscriberId"@)),
            avatar: opt_text_of(lookup(e, "avatar"@)),
            email: opt_text_of(lookup(e, "email"@)),
            last_online_at: opt_text_of(lookup(e, "lastOnlineAt"@)),
            locale: opt_text_of(lookup(e, "locale"@)),
            phone: opt_text_of(lookup(e, "phone"@)),
            updated_at: opt_text_of(lookup(e, "updatedAt"@)),
            version: opt_int_of(lookup(e, "__v"@)),
            data: opt_object_of(lookup(e, "data"@)),
        }
    }
}

impl WireRecord for SubscriberRecord {
    open spec fn wire_ok(e: Seq<(String, Json)>) -> bool {
        &&& shape_ok(lookup(e, "_id"@), Shape::OptText)
        &&& shape_ok(lookup(e, "_organizationId"@), Shape::OptText)
        &&& shape_ok(lookup(e, "_environmentId"@), Shape::OptText)
        &&& shape_ok(lookup(e, "channels"@), Shape::OptArray)
        &&& shape_ok(lookup(e, "deleted"@), Shape::Bool)
        &&& shape_ok(lookup(e, "createdAt"@), Shape::OptText)
        &&& shape_ok(lookup(e, "firstName"@), Shape::OptText)
        &&& shape_ok(lookup(e, "lastName"@), Shape::OptText)
        &&& shape_ok(lookup(e, "subscriberId"@), Shape::OptText)
        &&& shape_ok(lookup(e, "avatar"@), Shape::OptText)
        &&& shape_ok(lookup(e, "email"@), Shape::OptText)
        &&& shape_ok(lookup(e, "lastOnlineAt"@), Shape::OptText)
        &&& shape_ok(lookup(e, "locale"@), Shape::OptText)
        &&& shape_ok(lookup(e, "phone"@), Shape::OptText)
        &&& shape_ok(lookup(e, "updatedAt"@), Shape::OptText)
        &&& shape_ok(lookup(e, "__v"@), Shape::OptInt)
        &&& shape_ok(lookup(e, "data"@), Shape::OptObject)
    }

    open spec fn decodes_to(e: Seq<(String, Json)>, r: SubscriberRecord) -> bool {
        r == Self::record_of(e)
    }

    fn accepts(e: &Vec<(String, Json)>) -> (b: bool) {
        field_ok(e, "_id", Shape::OptText) && field_ok(e, "_organizationId", Shape::OptText)
            && field_ok(e, "_environmentId", Shape::OptText) && field_ok(
            e,
            "channels",
            Shape::OptArray,
        ) && field_ok(e, "deleted", Shape::Bool) && field_ok(e, "createdAt", Shape::OptText)
            && field_ok(e, "firstName", Shape::OptText) && field_ok(e, "lastName", Shape::OptText)
            && field_ok(e, "subscriberId", Shape::OptText) && field_ok(e, "avatar", Shape::OptText)
            && field_ok(e, "email", Shape::OptText) && field_ok(e, "lastOnlineAt", Shape::OptText)
            && field_ok(e, "locale", Shape::OptText) && field_ok(e, "phone", Shape::OptText)
            && field_ok(e, "updatedAt", Shape::OptText) && field_ok(e, "__v", Shape::OptInt)
            && field_ok(e, "data", Shape::OptObject)
    }

    fn from_entries(e: Vec<(String, Json)>) -> (r: SubscriberRecord) {
        let mut e = e;
        let ghost e0 = e@;
        let id = read_opt_text(&e, "_id");
        let organization_id = read_opt_text(&e, "_organizationId");
        let environment_id = read_opt_text(&e, "_environmentId");
        let deleted = read_bool(&e, "deleted");
        let created_at = read_opt_text(&e, "createdAt");
        let first_name = read_opt_text(&e, "firstName");
        let last_name = read_opt_text(&e, "lastName");
        let subscriber_id = read_opt_text(&e, "subscriberId");
        let avatar = read_opt_text(&e, "avatar");
        let email = read_opt_text(&e, "email");
        let last_online_at = read_opt_text(&e, "lastOnlineAt");
        let locale = read_opt_text(&e, "locale");
        let phone = read_opt_text(&e, "phone");
        let updated_at = read_opt_text(&e, "updatedAt");
        let version = read_opt_int(&e, "__v");
        let channels = into_opt_array(take(&mut e, "channels"));
        proof {
            reveal_strlit("channels");
            reveal_strlit("data");
            assert("channels"@.len() != "data"@.len());
        }
        let data = into_opt_object(take(&mut e, "data"));
        SubscriberRecord {
            id,
            organization_id,
            environment_id,
            channels,
            deleted,
            created_at,
            first_name,
            last_name,
            subscriber_id,
            avatar,
            email,
            last_online_at,
            locale,
            phone,
            updated_at,
            version,
            data,
        }
    }
}

impl WireRecord for SubscribersResponse {
    open spec fn wire_ok(e: Seq<(String, Json)>) -> bool {
        &&& shape_ok(lookup(e, "page"@), Shape::Int32)
        &&& shape_ok(lookup(e, "totalCount"@), Shape::Int32)
        &&& shape_ok(lookup(e, "pageSize"@), Shape::Int32)
        &&& shape_ok(lookup(e, "data"@), Shape::TextList)
    }

    open spec fn decodes_to(e: Seq<(String, Json)>, r: SubscribersResponse) -> bool {
        &&& r.page as int == lookup(e, "page"@)->Some_0->Int_0 as int
        &&& r.total_count as int == lookup(e, "totalCount"@)->Some_0->Int_0 as int
        &&& r.page_size as int == lookup(e, "pageSize"@)->Some_0->Int_0 as int
        &&& r.data@ == texts_of(lookup(e, "data"@)->Some_0->Array_0@)
    }

    fn accepts(e: &Vec<(String, Json)>) -> (b: bool) {
        field_ok(e, "page", Shape::Int32) && field_ok(e, "totalCount", Shape::Int32) && field_ok(
            e,
            "pageSize",
            Shape::Int32,
        ) && field_ok(e, "data", Shape::TextList)
    }

    fn from_entries(e: Vec<(String, Json)>) -> (r: SubscribersResponse) {
        SubscribersResponse {
            page: read_i32(&e, "page"),
            total_count: read_i32(&e, "totalCount"),
            page_size: read_i32(&e, "pageSize"),
            data: read_texts(&e, "data"),
        }
    }
}

impl Subscribers {
    pub fn new(client: Client) -> (r: Self)
        ensures
            r.client == client,
    {
        Subscribers { client }
    }

    /// The call that fetches page `page` of subscriber identifiers.
    pub fn list(&self, page: i32) -> (r: Request)
        ensures
            r.method == Method::Get,
            r.url@ == self.client.base_url@ + "/subscribers/?page="@ + decimal(page as int),
            self.client.spec_headers(r.headers@),
            r.body is None,
    {
        let path = String::from_str("/subscribers/?page=").concat(decimal_text(page).as_str());
        let r = self.client.request(Method::Get, path.as_str(), None);
        assert(r.url@ =~= self.client.base_url@ + "/subscribers/?page="@ + decimal(page as int));
        r
    }

    /// The call that fetches the subscriber `subscriber_id`.
    pub fn get_subscriber(&self, subscriber_id: String) -> (r: Request)
        ensures
            r.method == Method::Get,
            r.url@ == self.client.base_url@ + "/subscribers/"@ + subscriber_id@,
            self.client.spec_headers(r.headers@),
            r.body is None,
    {
        let path = String::from_str("/subscribers/").concat(subscriber_id.as_str());
        let r = self.client.request(Method::Get, path.as_str(), None);
        assert(r.url@ =~= self.client.base_url@ + "/subscribers/"@ + subscriber_id@);
        r
    }

    /// The call that replaces the fields of subscriber `subscriber_id` with `data`.
    pub fn update(&self, subscriber_id: String, data: SubscriberPayload) -> (r: Request)
        ensures
            r.method == Method::Put,
            r.url@ == self.client.base_url@ + "/subscribers/"@ + subscriber_id@,
            self.client.spec_headers(r.headers@),
            r.body matches Some(Json::Object(e)) && named(e@) == data.wire_entries(),
    {
        let path = String::from_str("/subscribers/").concat(subscriber_id.as_str());
        let r = self.client.request(Method::Put, path.as_str(), Some(data.to_json()));
        assert(r.url@ =~= self.client.base_url@ + "/subscribers/"@ + subscriber_id@);
        r
    }

    /// The call that creates the subscriber described by `data`.
    pub fn create(&self, data: CreateSubscriberPayload) -> (r: Request)
        ensures
            r.method == Method::Post,
            r.url@ == self.client.base_url@ + "/subscribers/"@,
            self.client.spec_headers(r.headers@),
            r.body matches Some(Json::Object(e)) && named(e@) == data.wire_entries(),
    {
        self.client.request(Method::Post, "/subscribers/", Some(data.to_json()))
    }

    /// The call that registers provider credentials for subscriber `subscriber_id`.
    pub fn update_credentials(&self, subscriber_id: String, data: UpdateCredentialsPayload) -> (r:
        Request)
        ensures
            r.method == Method::Put,
            r.url@ == self.client.base_url@ + "/subscribers/"@ + subscriber_id@ + "/credentials"@,
            self.client.spec_headers(r.headers@),
            r.body matches Some(Json::Object(e)) && data.sent_as(e@),
    {
        let path = String::from_str("/subscribers/").concat(subscriber_id.as_str()).concat(
            "/credentials",
        );
        let r = self.client.request(Method::Put, path.as_str(), Some(data.to_json()));
        assert(r.url@ =~= self.client.base_url@ + "/subscribers/"@ + subscriber_id@
            + "/credentials"@);
        r
    }
}

pub open spec fn opt_int_json(o: Option<i64>) -> Json {
    match o {
        Some(n) => Json::Int(n),
        None => Json::Null,
    }
}

pub open spec fn opt_array_json(o: Option<Vec<Json>>) -> Json {
    match o {
        Some(items) => Json::Array(items),
        None => Json::Null,
    }
}

pub open spec fn opt_object_json(o: Option<Vec<(String, Json)>>) -> Json {
    match o {
        Some(d) => Json::Object(d),
        None => Json::Null,
    }
}

impl SubscriberRecord {
    /// The entries this record is sent as, in order, under the service's names.
    pub open spec fn wire_entries(&self) -> Seq<(Seq<char>, Json)> {
        seq![
            ("_id"@, opt_text_json(self.id)),
            ("_organizationId"@, opt_text_json(self.organization_id)),
            ("_environmentId"@, opt_text_json(self.environment_id)),
            ("channels"@, opt_array_json(self.channels)),
            ("deleted"@, Json::Bool(self.deleted)),
            ("createdAt"@, opt_text_json(self.created_at)),
            ("firstName"@, opt_text_json(self.first_name)),
            ("lastName"@, opt_text_json(self.last_name)),
            ("subscriberId"@, opt_text_json(self.subscriber_id)),
            ("avatar"@, opt_text_json(self.avatar)),
            ("email"@, opt_text_json(self.email)),
            ("lastOnlineAt"@, opt_text_json(self.last_online_at)),
            ("locale"@, opt_text_json(self.locale)),
            ("phone"@, opt_text_json(self.phone)),
            ("updatedAt"@, opt_text_json(self.updated_at)),
            ("__v"@, opt_int_json(self.version)),
            ("data"@, opt_object_json(self.data)),
        ]
    }

    pub fn to_json(self) -> (r: Json)
        ensures
            r matches Json::Object(e) && named(e@) == self.wire_entries(),
    {
        let mut e: Vec<(String, Json)> = Vec::new();
        e.push((String::from_str("_id"), opt_text_to_json(self.id)));
        e.push((String::from_str("_organizationId"), opt_text_to_json(self.organization_id)));
        e.push((String::from_str("_environmentId"), opt_text_to_json(self.environment_id)));
        let v = match self.channels {
            Some(items) => Json::Array(items),
            None => Json::Null,
        };
        e.push((String::from_str("channels"), v));
        e.push((String::from_str("deleted"), Json::Bool(self.deleted)));
        e.push((String::from_str("createdAt"), opt_text_to_json(self.created_at)));
        e.push((String::from_str("firstName"), opt_text_to_json(self.first_name)));
        e.push((String::from_str("lastName"), opt_text_to_json(self.last_name)));
        e.push((String::from_str("subscriberId"), opt_text_to_json(self.subscriber_id)));
        e.push((String::from_str("avatar"), opt_text_to_json(self.avatar)));
        e.push((String::from_str("email"), opt_text_to_json(self.email)));
        e.push((String::from_str("lastOnlineAt"), opt_text_to_json(self.last_online_at)));
        e.push((String::from_str("locale"), opt_text_to_json(self.locale)));
        e.push((String::from_str("phone"), opt_text_to_json(self.phone)));
        e.push((String::from_str("updatedAt"), opt_text_to_json(self.updated_at)));
        let v = match self.version {
            Some(n) => Json::Int(n),
            None => Json::Null,
        };
        e.push((String::from_str("__v"), v));
        let v = match self.data {
            Some(d) => Json::Object(d),
            None => Json::Null,
        };
        e.push((String::from_str("data"), v));
        assert(named(e@) =~= self.wire_entries());
        Json::Object(e)
    }
}

/// Every field of a record keeps its value across the wire, both ways: the
/// entries a record is sent as are accepted and decode to the same record.
pub proof fn lemma_record_round_trip(r: SubscriberRecord, e: Seq<(String, Json)>)
    requires
        named(e) == r.wire_entries(),
    ensures
        <SubscriberRecord as WireRecord>::wire_ok(e),
        SubscriberRecord::record_of(e) == r,
{
    reveal_strlit("_id");
    reveal_strlit("_organizationId");
    reveal_strlit("_environmentId");
    reveal_strlit("channels");
    reveal_strlit("deleted");
    reveal_strlit("createdAt");
    reveal_strlit("firstName");
    reveal_strlit("lastName");
    reveal_strlit("subscriberId");
    reveal_strlit("avatar");
    reveal_strlit("email");
    reveal_strlit("lastOnlineAt");
    reveal_strlit("locale");
    reveal_strlit("phone");
    reveal_strlit("updatedAt");
    reveal_strlit("__v");
    reveal_strlit("data");
    assert(r.wire_entries().len() == 17);
    assert(named(e).len() == e.len());
    assert forall|i: int| 0 <= i < 17 implies (#[trigger] e[i]).0@ == r.wire_entries()[i].0 && e[i].1
        == r.wire_entries()[i].1 by {
        assert(named(e)[i] == (e[i].0@, e[i].1));
    }
    lemma_lookup_first(e, "_id"@, 0);
    assert("_id"@.len() != "_organizationId"@.len());
    lemma_lookup_first(e, "_organizationId"@, 1);
    assert("_id"@.len() != "_environmentId"@.len() &&
        "_organizationId"@.len() != "_environmentId"@.len());
    lemma_lookup_first(e, "_environmentId"@, 2);
    assert("_id"@.len() != "channels"@.len() &&
        "_organizationId"@.len() != "channels"@.len() &&
        "_environmentId"@.len() != "channels"@.len());
    lemma_lookup_first(e, "channels"@, 3);
    assert("_id"@.len() != "deleted"@.len() &&
        "_organizationId"@.len() != "deleted"@.len() &&
        "_environmentId"@.len() != "deleted"@.len() &&
        "channels"@.len() != "deleted"@.len());
    lemma_lookup_first(e, "deleted"@, 4);
    assert("_id"@.len() != "createdAt"@.len() &&
        "_organizationId"@.len() != "createdAt"@.len() &&
        "_environmentId"@.len() != "createdAt"@.len() &&
        "channels"@.len() != "createdAt"@.len() &&
        "deleted"@.len() != "createdAt"@.len());
    lemma_lookup_first(e, "createdAt"@, 5);
    assert("_id"@.len() != "firstName"@.len() &&
        "_organizationId"@.len() != "firstName"@.len() &&
        "_environmentId"@.len() != "firstName"@.len() &&
        "channels"@.len() != "firstName"@.len() &&
        "deleted"@.len() != "firstName"@.len() &&
        "createdAt"@[0] != "firstName"@[0]);
    lemma_lookup_first(e, "firstName"@, 6);
    assert("_id"@.len() != "lastName"@.len() &&
        "_organizationId"@.len() != "lastName"@.len() &&
        "_environmentId"@.len() != "lastName"@.len() &&
        "channels"@[0] != "lastName"@[0] &&
        "deleted"@.len() != "lastName"@.len() &&
        "createdAt"@.len() != "lastName"@.len() &&
        "firstName"@.len() != "lastName"@.len());
    lemma_lookup_first(e, "lastName"@, 7);
    assert("_id"@.len() != "subscriberId"@.len() &&
        "_organizationId"@.len() != "subscriberId"@.len() &&
        "_environmentId"@.len() != "subscriberId"@.len() &&
        "channels"@.len() != "subscriberId"@.len() &&
        "deleted"@.len() != "subscriberId"@.len() &&
        "createdAt"@.len() != "subscriberId"@.len() &&
        "firstName"@.len() != "subscriberId"@.len() &&
        "lastName"@.len() != "subscriberId"@.len());
    lemma_lookup_first(e, "subscriberId"@, 8);
    assert("_id"@.len() != "avatar"@.len() &&
        "_organizationId"@.len() != "avatar"@.len() &&
        "_environmentId"@.len() != "avatar"@.len() &&
        "channels"@.len() != "avatar"@.len() &&
        "deleted"@.len() != "avatar"@.len() &&
        "createdAt"@.len() != "avatar"@.len() &&
        "firstName"@.len() != "avatar"@.len() &&
        "lastName"@.len() != "avatar"@.len() &&
        "subscriberId"@.len() != "avatar"@.len());
    lemma_lookup_first(e, "avatar"@, 9);
    assert("_id"@.len() != "email"@.len() &&
        "_organizationId"@.len() != "email"@.len() &&
        "_environmentId"@.len() != "email"@.len() &&
        "channels"@.len() != "email"@.len() &&
        "deleted"@.len() != "email"@.len() &&
        "createdAt"@.len() != "email"@.len() &&
        "firstName"@.len() != "email"@.len() &&
        "lastName"@.len() != "email"@.len() &&
        "subscriberId"@.len() != "email"@.len() &&
        "avatar"@.len() != "email"@.len());
    lemma_lookup_first(e, "email"@, 10);
    assert("_id"@.len() != "lastOnlineAt"@.len() &&
        "_organizationId"@.len() != "lastOnlineAt"@.len() &&
        "_environmentId"@.len() != "lastOnlineAt"@.len() &&
        "channels"@.len() != "lastOnlineAt"@.len() &&
        "deleted"@.len() != "lastOnlineAt"@.len() &&
        "createdAt"@.len() != "lastOnlineAt"@.len() &&
        "firstName"@.len() != "lastOnlineAt"@.len() &&
        "lastName"@.len() != "lastOnlineAt"@.len() &&
        "subscriberId"@[0] != "lastOnlineAt"@[0] &&
        "avatar"@.len() != "lastOnlineAt"@.len() &&
        "email"@.len() != "lastOnlineAt"@.len());
    lemma_lookup_first(e, "lastOnlineAt"@, 11);
    assert("_id"@.len() != "locale"@.len() &&
        "_organizationId"@.len() != "locale"@.len() &&
        "_environmentId"@.len() != "locale"@.len() &&
        "channels"@.len() != "locale"@.len() &&
        "deleted"@.len() != "locale"@.len() &&
        "createdAt"@.len() != "locale"@.len() &&
        "firstName"@.len() != "locale"@.len() &&
        "lastName"@.len() != "locale"@.len() &&
        "subscriberId"@.len() != "locale"@.len() &&
        "avatar"@[0] != "locale"@[0] &&
        "email"@.len() != "locale"@.len() &&
        "lastOnlineAt"@.len() != "locale"@.len());
    lemma_lookup_first(e, "locale"@, 12);
    assert("_id"@.len() != "phone"@.len() &&
        "_organizationId"@.len() != "phone"@.len() &&
        "_environmentId"@.len() != "phone"@.len() &&
        "channels"@.len() != "phone"@.len() &&
        "deleted"@.len() != "phone"@.len() &&
        "createdAt"@.len() != "phone"@.len() &&
        "firstName"@.len() != "phone"@.len() &&
        "lastName"@.len() != "phone"@.len() &&
        "subscriberId"@.len() != "phone"@.len() &&
        "avatar"@.len() != "phone"@.len() &&
        "email"@[0] != "phone"@[0] &&
        "lastOnlineAt"@.len() != "phone"@.len() &&
        "locale"@.len() != "phone"@.len());
    lemma_lookup_first(e, "phone"@, 13);
    assert("_id"@.len() != "updatedAt"@.len() &&
        "_organizationId"@.len() != "updatedAt"@.len() &&
        "_environmentId"@.len() != "updatedAt"@.len() &&
        "channels"@.len() != "updatedAt"@.len() &&
        "deleted"@.len() != "updatedAt"@.len() &&
        "createdAt"@[0] != "updatedAt"@[0] &&
        "firstName"@[0] != "updatedAt"@[0] &&
        "lastName"@.len() != "updatedAt"@.len() &&
        "subscriberId"@.len() != "updatedAt"@.len() &&
        "avatar"@.len() != "updatedAt"@.len() &&
        "email"@.len() != "updatedAt"@.len() &&
        "lastOnlineAt"@.len() != "updatedAt"@.len() &&
        "locale"@.len() != "updatedAt"@.len() &&
        "phone"@.len() != "updatedAt"@.len());
    lemma_lookup_first(e, "updatedAt"@, 14);
    assert("_id"@[1] != "__v"@[1] &&
        "_organizationId"@.len() != "__v"@.len() &&
        "_environmentId"@.len() != "__v"@.len() &&
        "channels"@.len() != "__v"@.len() &&
        "deleted"@.len() != "__v"@.len() &&
        "createdAt"@.len() != "__v"@.len() &&
        "firstName"@.len() != "__v"@.len() &&
        "lastName"@.len() != "__v"@.len() &&
        "subscriberId"@.len() != "__v"@.len() &&
        "avatar"@.len() != "__v"@.len() &&
        "email"@.len() != "__v"@.len() &&
        "lastOnlineAt"@.len() != "__v"@.len() &&
        "locale"@.len() != "__v"@.len() &&
        "phone"@.len() != "__v"@.len() &&
        "updatedAt"@.len() != "__v"@.len());
    lemma_lookup_first(e, "__v"@, 15);
    assert("_id"@.len() != "data"@.len() &&
        "_organizationId"@.len() != "data"@.len() &&
        "_environmentId"@.len() != "data"@.len() &&
        "channels"@.len() != "data"@.len() &&
        "deleted"@.len() != "data"@.len() &&
        "createdAt"@.len() != "data"@.len() &&
        "firstName"@.len() != "data"@.len() &&
        "lastName"@.len() != "data"@.len() &&
        "subscriberId"@.len() != "data"@.len() &&
        "avatar"@.len() != "data"@.len() &&
        "email"@.len() != "data"@.len() &&
        "lastOnlineAt"@.len() != "data"@.len() &&
        "locale"@.len() != "data"@.len() &&
        "phone"@.len() != "data"@.len() &&
        "updatedAt"@.len() != "data"@.len() &&
        "__v"@.len() != "data"@.len());
    lemma_lookup_first(e, "data"@, 16);
}

/// An update loses no field across the wire: when the record the service
/// echoes holds every non-null entry the update sent, under the name it was
/// sent with, the decoded record has each field the update set, with the same
/// value.
pub proof fn lemma_update_echo_keeps_fields(p: SubscriberPayload, echo: Seq<(String, Json)>)
    requires
        <SubscriberRecord as WireRecord>::wire_ok(echo),
        forall|i: int|
            0 <= i < p.wire_entries().len() && (#[trigger] p.wire_entries()[i]).1 != Json::Null
                ==> lookup(echo, p.wire_entries()[i].0) == Some(p.wire_entries()[i].1),
    ensures
        ({
            let r = SubscriberRecord::record_of(echo);
            &&& p.first_name is Some ==> r.first_name == p.first_name
            &&& p.last_name is Some ==> r.last_name == p.last_name
            &&& p.email is Some ==> r.email == p.email
            &&& p.phone is Some ==> r.phone == p.phone
            &&& p.avatar is Some ==> r.avatar == p.avatar
            &&& r.subscriber_id == Some(p.subscriber_id)
        }),
{
    let w = p.wire_entries();
    assert(w[0] == w[0] && w[1] == w[1] && w[2] == w[2] && w[3] == w[3] && w[4] == w[4] && w[5]
        == w[5]);
}

/// A create is read back whole: when the record the service returns for the
/// new subscriber holds every non-null entry the create sent, under the name it
/// was sent with, the decoded record has the identifier and each field the
/// create set, with the same value.
pub proof fn lemma_created_fields_read_back(p: CreateSubscriberPayload, got: Seq<(String, Json)>)
    requires
        <SubscriberRecord as WireRecord>::wire_ok(got),
        forall|i: int|
            0 <= i < p.wire_entries().len() && (#[trigger] p.wire_entries()[i]).1 != Json::Null
                ==> lookup(got, p.wire_entries()[i].0) == Some(p.wire_entries()[i].1),
    ensures
        ({
            let r = SubscriberRecord::record_of(got);
            &&& p.first_name is Some ==> r.first_name == p.first_name
            &&& p.last_name is Some ==> r.last_name == p.last_name
            &&& p.email is Some ==> r.email == p.email
            &&& p.phone is Some ==> r.phone == p.phone
            &&& p.avatar is Some ==> r.avatar == p.avatar
            &&& r.subscriber_id == Some(p.subscriber_id)
            &&& p.data is Some ==> r.data == p.data
        }),
{
    let w = p.wire_entries();
    assert(w[0] == w[0] && w[1] == w[1] && w[2] == w[2] && w[3] == w[3] && w[4] == w[4] && w[5]
        == w[5] && w[6] == w[6]);
}

} // verus!
