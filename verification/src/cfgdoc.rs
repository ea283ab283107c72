//! The persisted form of the configuration: how each record is laid out
//! as a JSON document, how a document is read back, and the proof that
//! reading back what was written yields the very same configuration.

use vstd::prelude::*;
use crate::auth::oauth::{OAuthData, OAuthDataView, OAuthFlow, OAuthToken, OAuthTokenView};
use crate::auth::{AuthData, AuthDataView};
use crate::config::{Configuration, ConfigurationView};
use crate::connect::{Connection, ConnectionView};
use crate::error::ConfigError;
use crate::json::{json_view, obj_get, Json, JsonView};
use crate::timeutil::{rfc3339_of, rfc3339_parse_of};
use crate::strutil::str_eq;

verus! {

/// A string field of an object; anything else rejects the document.
pub open spec fn str_field(f: Seq<(Seq<char>, JsonView)>, key: Seq<char>) -> Option<Seq<char>> {
    match obj_get(f, key) {
        Some(JsonView::Str(s)) => Some(s),
        _ => None,
    }
}

/// An optional string field: absent or null stands for none.
pub open spec fn opt_str_field(f: Seq<(Seq<char>, JsonView)>, key: Seq<char>) -> Option<
    Option<Seq<char>>,
> {
    match obj_get(f, key) {
        None => Some(None),
        Some(JsonView::Null) => Some(None),
        Some(JsonView::Str(s)) => Some(Some(s)),
        Some(_) => None,
    }
}

/// An optional number field: absent or null stands for none.
pub open spec fn opt_num_field(f: Seq<(Seq<char>, JsonView)>, key: Seq<char>) -> Option<
    Option<u64>,
> {
    match obj_get(f, key) {
        None => Some(None),
        Some(JsonView::Null) => Some(None),
        Some(JsonView::Num(n)) => Some(Some(n)),
        Some(_) => None,
    }
}

/// The token material a document describes, if it is well formed.
pub open spec fn token_from_doc(v: JsonView) -> Option<OAuthTokenView> {
    match v {
        JsonView::Obj(f) => match (str_field(f, "access_token"@), opt_str_field(
            f,
            "refresh_token"@,
        ), opt_num_field(f, "expires_in"@)) {
            (Some(a), Some(r), Some(e)) => Some(
                OAuthTokenView { access_token: a, refresh_token: r, expires_in: e },
            ),
            _ => None,
        },
        _ => None,
    }
}

/// The document shape of token material.
pub open spec fn token_doc_spec(t: OAuthTokenView) -> JsonView {
    JsonView::Obj(
        seq![
            ("access_token"@, JsonView::Str(t.access_token)),
            ("token_type"@, JsonView::Str("Bearer"@)),
            (
                "refresh_token"@,
                match t.refresh_token {
                    Some(s) => JsonView::Str(s),
                    None => JsonView::Null,
                },
            ),
            (
                "expires_in"@,
                match t.expires_in {
                    Some(n) => JsonView::Num(n),
                    None => JsonView::Null,
                },
            ),
        ],
    )
}

proof fn reveal_token_keys()
    ensures
        "access_token"@.len() == 12,
        "token_type"@.len() == 10,
        "refresh_token"@.len() == 13,
        "expires_in"@.len() == 10,
        "token_type"@ != "expires_in"@,
{
    reveal_strlit("access_token");
    reveal_strlit("token_type");
    reveal_strlit("refresh_token");
    reveal_strlit("expires_in");
    assert("token_type"@[0] != "expires_in"@[0]);
}

/// Reading back the document written for token material yields the same
/// material.
pub proof fn lemma_token_round_trip(t: OAuthTokenView)
    ensures
        token_from_doc(token_doc_spec(t)) == Some(t),
{
    reveal_token_keys();
    let f = match token_doc_spec(t) {
        JsonView::Obj(f) => f,
        _ => Seq::empty(),
    };
    assert(f.skip(1).skip(1) =~= f.skip(2));
    assert(f.skip(2).skip(1) =~= f.skip(3));
    assert(obj_get(f, "access_token"@) == Some(JsonView::Str(t.access_token)));
    assert(obj_get(f, "refresh_token"@) == obj_get(f.skip(1), "refresh_token"@));
    assert(obj_get(f.skip(1), "refresh_token"@) == obj_get(f.skip(2), "refresh_token"@));
    assert(obj_get(f.skip(2), "refresh_token"@) == Some(f[2].1));
    assert(obj_get(f, "expires_in"@) == obj_get(f.skip(1), "expires_in"@));
    assert(obj_get(f.skip(1), "expires_in"@) == obj_get(f.skip(2), "expires_in"@));
    assert(obj_get(f.skip(2), "expires_in"@) == obj_get(f.skip(3), "expires_in"@));
    assert(obj_get(f.skip(3), "expires_in"@) == Some(f[3].1));
    assert(token_from_doc(token_doc_spec(t)) matches Some(x) && x =~= t);
}

/// Writes token material into its document shape.
pub fn token_to_doc(t: &OAuthToken) -> (r: Json)
    ensures
        json_view(r) == token_doc_spec(t@),
        token_from_doc(json_view(r)) == Some(t@),
{
    let mut fields: Vec<(String, Json)> = Vec::new();
    fields.push(("access_token".to_owned(), Json::Str(t.access_token.clone())));
    let ghost e0 = fields@[0];
    proof {
        assert(e0.0@ == "access_token"@ && json_view(e0.1) == JsonView::Str(t@.access_token));
    }
    fields.push(("token_type".to_owned(), Json::Str("Bearer".to_owned())));
    let ghost e1 = fields@[1];
    proof {
        assert(fields@[0] == e0);
        assert(e1.0@ == "token_type"@ && json_view(e1.1) == JsonView::Str("Bearer"@));
    }
    fields.push((
        "refresh_token".to_owned(),
        match &t.refresh_token {
            Some(s) => Json::Str(s.clone()),
            None => Json::Null,
        },
    ));
    let ghost e2 = fields@[2];
    proof {
        assert(fields@[0] == e0 && fields@[1] == e1);
        assert(e2.0@ == "refresh_token"@ && json_view(e2.1) == (match t@.refresh_token {
            Some(s) => JsonView::Str(s),
            None => JsonView::Null,
        }));
    }
    fields.push((
        "expires_in".to_owned(),
        match t.expires_in {
            Some(n) => Json::Num(n),
            None => Json::Null,
        },
    ));
    let ghost e3 = fields@[3];
    proof {
        assert(fields@[0] == e0 && fields@[1] == e1 && fields@[2] == e2);
        assert(e3.0@ == "expires_in"@ && json_view(e3.1) == (match t@.expires_in {
            Some(n) => JsonView::Num(n),
            None => JsonView::Null,
        }));
    }
    let r = Json::Obj(fields);
    proof {
        let spec_fields = match token_doc_spec(t@) {
            JsonView::Obj(f) => f,
            _ => Seq::empty(),
        };
        let got = match json_view(r) {
            JsonView::Obj(f) => f,
            _ => Seq::empty(),
        };
        assert(got.len() == 4 && spec_fields.len() == 4);
        assert(got[0] == (e0.0@, json_view(e0.1)));
        assert(got[1] == (e1.0@, json_view(e1.1)));
        assert(got[2] == (e2.0@, json_view(e2.1)));
        assert(got[3] == (e3.0@, json_view(e3.1)));
        assert(got =~= spec_fields);
        assert(json_view(r) == token_doc_spec(t@));
        lemma_token_round_trip(t@);
    }
    r
}

/// Reads token material back out of a document.
pub fn token_from_doc_exec(j: &Json) -> (r: Result<OAuthToken, ConfigError>)
    ensures
        token_from_doc(json_view(*j)) matches Some(v) ==> (r matches Ok(t) && t@ == v),
        token_from_doc(json_view(*j)) is None ==> (r matches Err(e) && e
            is FailedDeserialize),
{
    proof {
        reveal_token_keys();
    }
    let fields = match j {
        Json::Obj(f) => f,
        _ => {
            return Err(ConfigError::FailedDeserialize("token is not an object".to_owned()));
        },
    };
    let access_token = match crate::json::get_field(fields, "access_token") {
        Some(Json::Str(s)) => s.clone(),
        _ => {
            return Err(ConfigError::FailedDeserialize("token lacks access_token".to_owned()));
        },
    };
    let refresh_token = match crate::json::get_field(fields, "refresh_token") {
        None => None,
        Some(Json::Null) => None,
        Some(Json::Str(s)) => Some(s.clone()),
        Some(_) => {
            return Err(ConfigError::FailedDeserialize("refresh_token is malformed".to_owned()));
        },
    };
    let expires_in = match crate::json::get_field(fields, "expires_in") {
        None => None,
        Some(Json::Null) => None,
        Some(Json::Num(n)) => Some(*n),
        Some(_) => {
            return Err(ConfigError::FailedDeserialize("expires_in is malformed".to_owned()));
        },
    };
    Ok(OAuthToken { access_token, refresh_token, expires_in })
}


/// The grant flow a document names.
pub open spec fn flow_from_doc(v: JsonView) -> Option<OAuthFlow> {
    match v {
        JsonView::Str(s) => if s == "Device"@ {
            Some(OAuthFlow::Device)
        } else if s == "Code"@ {
            Some(OAuthFlow::Code)
        } else if s == "Refresh"@ {
            Some(OAuthFlow::Refresh)
        } else {
            None
        },
        _ => None,
    }
}

/// The document shape of a grant flow.
pub open spec fn flow_doc_spec(f: OAuthFlow) -> JsonView {
    match f {
        OAuthFlow::Device => JsonView::Str("Device"@),
        OAuthFlow::Code => JsonView::Str("Code"@),
        OAuthFlow::Refresh => JsonView::Str("Refresh"@),
    }
}

proof fn reveal_flow_names()
    ensures
        "Device"@.len() == 6,
        "Code"@.len() == 4,
        "Refresh"@.len() == 7,
{
    reveal_strlit("Device");
    reveal_strlit("Code");
    reveal_strlit("Refresh");
}

/// Reading back the name written for a flow yields the same flow.
pub proof fn lemma_flow_round_trip(f: OAuthFlow)
    ensures
        flow_from_doc(flow_doc_spec(f)) == Some(f),
{
    reveal_flow_names();
}

/// Writes a grant flow into its document shape.
pub fn flow_to_doc(f: &OAuthFlow) -> (r: Json)
    ensures
        json_view(r) == flow_doc_spec(*f),
        flow_from_doc(json_view(r)) == Some(*f),
{
    proof {
        lemma_flow_round_trip(*f);
    }
    match f {
        OAuthFlow::Device => Json::Str("Device".to_owned()),
        OAuthFlow::Code => Json::Str("Code".to_owned()),
        OAuthFlow::Refresh => Json::Str("Refresh".to_owned()),
    }
}

/// Reads a grant flow back out of a document.
pub fn flow_from_doc_exec(j: &Json) -> (r: Result<OAuthFlow, ConfigError>)
    ensures
        flow_from_doc(json_view(*j)) matches Some(v) ==> (r matches Ok(f) && f == v),
        flow_from_doc(json_view(*j)) is None ==> (r matches Err(e) && e is FailedDeserialize),
{
    proof {
        reveal_flow_names();
    }
    match j {
        Json::Str(s) => {
            if str_eq(s.as_str(), "Device") {
                Ok(OAuthFlow::Device)
            } else if str_eq(s.as_str(), "Code") {
                Ok(OAuthFlow::Code)
            } else if str_eq(s.as_str(), "Refresh") {
                Ok(OAuthFlow::Refresh)
            } else {
                Err(ConfigError::FailedDeserialize("unknown flow".to_owned()))
            }
        },
        _ => Err(ConfigError::FailedDeserialize("flow is not a string".to_owned())),
    }
}

/// The scope list a document describes: an array of strings.
pub open spec fn scopes_from_doc(v: JsonView) -> Option<Seq<Seq<char>>> {
    match v {
        JsonView::Arr(elems) => if forall|i: int| 0 <= i < elems.len() ==> (#[trigger] elems[i])
            is Str {
            Some(
                Seq::new(
                    elems.len(),
                    |i: int|
                        match elems[i] {
                            JsonView::Str(s) => s,
                            _ => Seq::empty(),
                        },
                ),
            )
        } else {
            None
        },
        _ => None,
    }
}

/// The document shape of a scope list.
pub open spec fn scopes_doc_spec(scopes: Seq<Seq<char>>) -> JsonView {
    JsonView::Arr(Seq::new(scopes.len(), |i: int| JsonView::Str(scopes[i])))
}

/// Reading back the document written for a scope list yields the same list.
pub proof fn lemma_scopes_round_trip(scopes: Seq<Seq<char>>)
    ensures
        scopes_from_doc(scopes_doc_spec(scopes)) == Some(scopes),
{
    let elems = match scopes_doc_spec(scopes) {
        JsonView::Arr(e) => e,
        _ => Seq::empty(),
    };
    assert(forall|i: int| 0 <= i < elems.len() ==> (#[trigger] elems[i]) is Str);
    let back = match scopes_from_doc(scopes_doc_spec(scopes)) {
        Some(b) => b,
        None => Seq::empty(),
    };
    assert(back =~= scopes);
}

/// Writes a scope list into its document shape.
pub fn scopes_to_doc(scopes: &Vec<String>) -> (r: Json)
    ensures
        json_view(r) == scopes_doc_spec(scopes.deep_view()),
        scopes_from_doc(json_view(r)) == Some(scopes.deep_view()),
{
    let mut items: Vec<Json> = Vec::new();
    let mut i: usize = 0;
    while i < scopes.len()
        invariant
            i <= scopes@.len(),
            items@.len() == i,
            forall|k: int|
                0 <= k < i ==> json_view(#[trigger] items@[k]) == JsonView::Str(scopes@[k]@),
        decreases scopes@.len() - i,
    {
        items.push(Json::Str(scopes[i].clone()));
        i = i + 1;
    }
    let r = Json::Arr(items);
    proof {
        let got = match json_view(r) {
            JsonView::Arr(e) => e,
            _ => Seq::empty(),
        };
        let want = match scopes_doc_spec(scopes.deep_view()) {
            JsonView::Arr(e) => e,
            _ => Seq::empty(),
        };
        assert(scopes.deep_view().len() == scopes@.len());
        assert forall|k: int| 0 <= k < got.len() implies got[k] == want[k] by {
            assert(json_view(items@[k]) == JsonView::Str(scopes@[k]@));
            assert(scopes.deep_view()[k] == scopes@[k]@);
        }
        assert(got =~= want);
        assert(json_view(r) == scopes_doc_spec(scopes.deep_view()));
        lemma_scopes_round_trip(scopes.deep_view());
    }
    r
}

/// Reads a scope list back out of a document.
pub fn scopes_from_doc_exec(j: &Json) -> (r: Result<Vec<String>, ConfigError>)
    ensures
        scopes_from_doc(json_view(*j)) matches Some(v) ==> (r matches Ok(s) && s.deep_view()
            == v),
        scopes_from_doc(json_view(*j)) is None ==> (r matches Err(e) && e is FailedDeserialize),
{
    let items = match j {
        Json::Arr(e) => e,
        _ => {
            return Err(ConfigError::FailedDeserialize("scopes is not an array".to_owned()));
        },
    };
    let ghost elems = match json_view(*j) {
        JsonView::Arr(e) => e,
        _ => Seq::empty(),
    };
    let mut out: Vec<String> = Vec::new();
    let mut i: usize = 0;
    while i < items.len()
        invariant
            i <= items@.len(),
            out@.len() == i,
            json_view(*j) == JsonView::Arr(elems),
            elems.len() == items@.len(),
            forall|k: int| 0 <= k < elems.len() ==> #[trigger] elems[k] == json_view(items@[k]),
            forall|k: int| 0 <= k < i ==> (#[trigger] elems[k]) is Str,
            forall|k: int|
                0 <= k < i ==> JsonView::Str(#[trigger] out@[k]@) == elems[k],
        decreases items@.len() - i,
    {
        match &items[i] {
            Json::Str(s) => {
                out.push(s.clone());
            },
            _ => {
                proof {
                    assert(elems[i as int] == json_view(items@[i as int]));
                    assert(!(elems[i as int] is Str));
                    assert(json_view(*j) == JsonView::Arr(elems));
                    assert(scopes_from_doc(json_view(*j)) is None);
                }
                return Err(ConfigError::FailedDeserialize("scope is not a string".to_owned()));
            },
        }
        i = i + 1;
    }
    proof {
        let back = match scopes_from_doc(json_view(*j)) {
            Some(b) => b,
            None => Seq::empty(),
        };
        assert forall|k: int| 0 <= k < elems.len() implies back[k] == out.deep_view()[k] by {
            assert(JsonView::Str(out@[k]@) == elems[k]);
            assert(out.deep_view()[k] == out@[k]@);
        }
        assert(out.deep_view() =~= back);
    }
    Ok(out)
}


/// The OAuth grant a document describes, if it is well formed.
pub open spec fn oauth_from_doc(v: JsonView) -> Option<OAuthDataView> {
    match v {
        JsonView::Obj(f) => match (str_field(f, "received"@), str_field(f, "client_id"@),
        str_field(f, "authorize_endpoint"@), str_field(f, "token_endpoint"@), opt_str_field(
            f,
            "device_endpoint"@,
        )) {
            (Some(rcv), Some(cid), Some(ae), Some(te), Some(de)) => match rfc3339_parse_of(rcv) {
                Some(t) => if !crate::timeutil::ts_renderable(t) {
                    None
                } else {
                    match (obj_get(f, "scopes"@), obj_get(f, "token"@), obj_get(
                    f,
                    "flow"@,
                )) {
                    (Some(sv), Some(tv), Some(fv)) => match (scopes_from_doc(sv), token_from_doc(
                        tv,
                    ), flow_from_doc(fv)) {
                        (Some(scopes), Some(token), Some(flow)) => Some(
                            OAuthDataView {
                                received: t,
                                client_id: cid,
                                authorize_endpoint: ae,
                                token_endpoint: te,
                                device_endpoint: de,
                                scopes,
                                token,
                                flow,
                            },
                        ),
                        _ => None,
                    },
                    _ => None,
                    }
                },
                None => None,
            },
            _ => None,
        },
        _ => None,
    }
}

/// The document shape of an OAuth grant.
pub open spec fn oauth_doc_spec(d: OAuthDataView) -> JsonView {
    JsonView::Obj(
        seq![
            ("received"@, JsonView::Str(rfc3339_of(d.received))),
            ("client_id"@, JsonView::Str(d.client_id)),
            ("authorize_endpoint"@, JsonView::Str(d.authorize_endpoint)),
            ("token_endpoint"@, JsonView::Str(d.token_endpoint)),
            (
                "device_endpoint"@,
                match d.device_endpoint {
                    Some(s) => JsonView::Str(s),
                    None => JsonView::Null,
                },
            ),
            ("scopes"@, scopes_doc_spec(d.scopes)),
            ("token"@, token_doc_spec(d.token)),
            ("flow"@, flow_doc_spec(d.flow)),
        ],
    )
}

proof fn reveal_oauth_keys()
    ensures
        "received"@.len() == 8,
        "client_id"@.len() == 9,
        "authorize_endpoint"@.len() == 18,
        "token_endpoint"@.len() == 14,
        "device_endpoint"@.len() == 15,
        "scopes"@.len() == 6,
        "token"@.len() == 5,
        "flow"@.len() == 4,
{
    reveal_strlit("received");
    reveal_strlit("client_id");
    reveal_strlit("authorize_endpoint");
    reveal_strlit("token_endpoint");
    reveal_strlit("device_endpoint");
    reveal_strlit("scopes");
    reveal_strlit("token");
    reveal_strlit("flow");
}

/// Writes an OAuth grant into its document shape.  Reading the document
/// back yields the very grant, the round trip the configuration store
/// promises for this record.
pub fn oauth_to_doc(d: &OAuthData) -> (r: Result<Json, ConfigError>)
    ensures
        crate::timeutil::ts_renderable(d.received) ==> r is Ok,
        r matches Err(e) ==> e is FailedSerialize,
        r matches Ok(j) ==> (json_view(j) == oauth_doc_spec(d@) && oauth_from_doc(json_view(j))
            == Some(d@)),
{
    proof {
        reveal_oauth_keys();
    }
    if !crate::timeutil::ts_in_render_range(d.received) {
        return Err(
            ConfigError::FailedSerialize("grant instant is out of calendar range".to_owned()),
        );
    }
    let rcv = match crate::timeutil::fmt_rfc3339(d.received) {
        Some(s) => s,
        None => {
            return Err(
                ConfigError::FailedSerialize("grant instant is out of calendar range".to_owned()),
            );
        },
    };
    let mut fields: Vec<(String, Json)> = Vec::new();
    fields.push(("received".to_owned(), Json::Str(rcv)));
    let ghost e0 = fields@[0];
    proof {
        assert(e0.0@ == "received"@ && json_view(e0.1) == JsonView::Str(
            crate::timeutil::rfc3339_of(d.received),
        ));
    }
    fields.push(("client_id".to_owned(), Json::Str(d.client_id.clone())));
    let ghost e1 = fields@[1];
    proof {
        assert(fields@[0] == e0);
        assert(e1.0@ == "client_id"@ && json_view(e1.1) == JsonView::Str(d@.client_id));
    }
    fields.push(("authorize_endpoint".to_owned(), Json::Str(d.authorize_endpoint.clone())));
    let ghost e2 = fields@[2];
    proof {
        assert(fields@[0] == e0 && fields@[1] == e1);
        assert(e2.0@ == "authorize_endpoint"@ && json_view(e2.1) == JsonView::Str(
            d@.authorize_endpoint,
        ));
    }
    fields.push(("token_endpoint".to_owned(), Json::Str(d.token_endpoint.clone())));
    let ghost e3 = fields@[3];
    proof {
        assert(fields@[0] == e0 && fields@[1] == e1 && fields@[2] == e2);
        assert(e3.0@ == "token_endpoint"@ && json_view(e3.1) == JsonView::Str(d@.token_endpoint));
    }
    fields.push((
        "device_endpoint".to_owned(),
        match &d.device_endpoint {
            Some(s) => Json::Str(s.clone()),
            None => Json::Null,
        },
    ));
    let ghost e4 = fields@[4];
    proof {
        assert(fields@[0] == e0 && fields@[1] == e1 && fields@[2] == e2 && fields@[3] == e3);
        assert(e4.0@ == "device_endpoint"@ && json_view(e4.1) == (match d@.device_endpoint {
            Some(s) => JsonView::Str(s),
            None => JsonView::Null,
        }));
    }
    fields.push(("scopes".to_owned(), scopes_to_doc(&d.scopes)));
    let ghost e5 = fields@[5];
    proof {
        assert(fields@[0] == e0 && fields@[1] == e1 && fields@[2] == e2 && fields@[3] == e3
            && fields@[4] == e4);
        assert(e5.0@ == "scopes"@ && json_view(e5.1) == scopes_doc_spec(d@.scopes));
    }
    fields.push(("token".to_owned(), token_to_doc(&d.token)));
    let ghost e6 = fields@[6];
    proof {
        assert(fields@[0] == e0 && fields@[1] == e1 && fields@[2] == e2 && fields@[3] == e3
            && fields@[4] == e4 && fields@[5] == e5);
        assert(e6.0@ == "token"@ && json_view(e6.1) == token_doc_spec(d@.token));
    }
    fields.push(("flow".to_owned(), flow_to_doc(&d.flow)));
    let ghost e7 = fields@[7];
    proof {
        assert(fields@[0] == e0 && fields@[1] == e1 && fields@[2] == e2 && fields@[3] == e3
            && fields@[4] == e4 && fields@[5] == e5 && fields@[6] == e6);
        assert(e7.0@ == "flow"@ && json_view(e7.1) == flow_doc_spec(d@.flow));
    }
    let r = Json::Obj(fields);
    proof {
        let want = match oauth_doc_spec(d@) {
            JsonView::Obj(f) => f,
            _ => Seq::empty(),
        };
        let got = match json_view(r) {
            JsonView::Obj(f) => f,
            _ => Seq::empty(),
        };
        assert(got.len() == 8 && want.len() == 8);
        assert(got[0] == (e0.0@, json_view(e0.1)));
        assert(got[1] == (e1.0@, json_view(e1.1)));
        assert(got[2] == (e2.0@, json_view(e2.1)));
        assert(got[3] == (e3.0@, json_view(e3.1)));
        assert(got[4] == (e4.0@, json_view(e4.1)));
        assert(got[5] == (e5.0@, json_view(e5.1)));
        assert(got[6] == (e6.0@, json_view(e6.1)));
        assert(got[7] == (e7.0@, json_view(e7.1)));
        assert(got =~= want);
        assert(json_view(r) == oauth_doc_spec(d@));
        crate::json::lemma_obj_get_at(want, "received"@, 0);
        crate::json::lemma_obj_get_at(want, "client_id"@, 1);
        crate::json::lemma_obj_get_at(want, "authorize_endpoint"@, 2);
        crate::json::lemma_obj_get_at(want, "token_endpoint"@, 3);
        crate::json::lemma_obj_get_at(want, "device_endpoint"@, 4);
        crate::json::lemma_obj_get_at(want, "scopes"@, 5);
        crate::json::lemma_obj_get_at(want, "token"@, 6);
        crate::json::lemma_obj_get_at(want, "flow"@, 7);
        lemma_scopes_round_trip(d@.scopes);
        lemma_token_round_trip(d@.token);
        lemma_flow_round_trip(d@.flow);
        assert(oauth_from_doc(json_view(r)) matches Some(x) && x =~~= d@);
    }
    Ok(r)
}

/// Reads an OAuth grant back out of a document.
pub fn oauth_from_doc_exec(j: &Json) -> (r: Result<OAuthData, ConfigError>)
    ensures
        oauth_from_doc(json_view(*j)) matches Some(v) ==> (r matches Ok(d) && d@ == v),
        oauth_from_doc(json_view(*j)) is None ==> (r matches Err(e) && e is FailedDeserialize),
{
    proof {
        reveal_oauth_keys();
    }
    let fields = match j {
        Json::Obj(f) => f,
        _ => {
            return Err(ConfigError::FailedDeserialize("grant is not an object".to_owned()));
        },
    };
    let received_text = match crate::json::get_field(fields, "received") {
        Some(Json::Str(s)) => s.clone(),
        _ => {
            return Err(ConfigError::FailedDeserialize("grant lacks received".to_owned()));
        },
    };
    let received = match crate::timeutil::parse_rfc3339(received_text.as_str()) {
        Some(t) => t,
        None => {
            return Err(ConfigError::FailedDeserialize("received is not a timestamp".to_owned()));
        },
    };
    if !crate::timeutil::ts_in_render_range(received) {
        return Err(
            ConfigError::FailedDeserialize("received is out of calendar range".to_owned()),
        );
    }
    let client_id = match crate::json::get_field(fields, "client_id") {
        Some(Json::Str(s)) => s.clone(),
        _ => {
            return Err(ConfigError::FailedDeserialize("grant lacks client_id".to_owned()));
        },
    };
    let authorize_endpoint = match crate::json::get_field(fields, "authorize_endpoint") {
        Some(Json::Str(s)) => s.clone(),
        _ => {
            return Err(
                ConfigError::FailedDeserialize("grant lacks authorize_endpoint".to_owned()),
            );
        },
    };
    let token_endpoint = match crate::json::get_field(fields, "token_endpoint") {
        Some(Json::Str(s)) => s.clone(),
        _ => {
            return Err(ConfigError::FailedDeserialize("grant lacks token_endpoint".to_owned()));
        },
    };
    let device_endpoint = match crate::json::get_field(fields, "device_endpoint") {
        None => None,
        Some(Json::Null) => None,
        Some(Json::Str(s)) => Some(s.clone()),
        Some(_) => {
            return Err(ConfigError::FailedDeserialize("device_endpoint is malformed".to_owned()));
        },
    };
    let scopes = match crate::json::get_field(fields, "scopes") {
        Some(v) => match scopes_from_doc_exec(v) {
            Ok(s) => s,
            Err(e) => {
                return Err(e);
            },
        },
        None => {
            return Err(ConfigError::FailedDeserialize("grant lacks scopes".to_owned()));
        },
    };
    let token = match crate::json::get_field(fields, "token") {
        Some(v) => match token_from_doc_exec(v) {
            Ok(t) => t,
            Err(e) => {
                return Err(e);
            },
        },
        None => {
            return Err(ConfigError::FailedDeserialize("grant lacks token".to_owned()));
        },
    };
    let flow = match crate::json::get_field(fields, "flow") {
        Some(v) => match flow_from_doc_exec(v) {
            Ok(f) => f,
            Err(e) => {
                return Err(e);
            },
        },
        None => {
            return Err(ConfigError::FailedDeserialize("grant lacks flow".to_owned()));
        },
    };
    let d = OAuthData {
        received,
        client_id,
        authorize_endpoint,
        token_endpoint,
        device_endpoint,
        scopes,
        token,
        flow,
    };
    proof {
        let v = match oauth_from_doc(json_view(*j)) {
            Some(v) => v,
            None => d@,
        };
        assert(d@ =~~= v);
    }
    Ok(d)
}


/// The credential a document describes, if it is well formed: an object with
/// the single tag `Jwt` or `OAuth`.
pub open spec fn auth_from_doc(v: JsonView) -> Option<AuthDataView> {
    match v {
        JsonView::Obj(f) => if f.len() != 1 {
            None
        } else if f[0].0 == "Jwt"@ {
            match f[0].1 {
                JsonView::Obj(jf) => match str_field(jf, "token"@) {
                    Some(tok) => match obj_get(jf, "expires"@) {
                        None => Some(AuthDataView::Jwt { expires: None, token: tok }),
                        Some(JsonView::Null) => Some(
                            AuthDataView::Jwt { expires: None, token: tok },
                        ),
                        Some(JsonView::Str(s)) => match rfc3339_parse_of(s) {
                            Some(t) => if crate::timeutil::ts_renderable(t) {
                                Some(AuthDataView::Jwt { expires: Some(t), token: tok })
                            } else {
                                None
                            },
                            None => None,
                        },
                        Some(_) => None,
                    },
                    None => None,
                },
                _ => None,
            }
        } else if f[0].0 == "OAuth"@ {
            match oauth_from_doc(f[0].1) {
                Some(d) => Some(AuthDataView::OAuth { data: d }),
                None => None,
            }
        } else {
            None
        },
        _ => None,
    }
}

/// The document shape of a credential.
pub open spec fn auth_doc_spec(a: AuthDataView) -> JsonView {
    match a {
        AuthDataView::Jwt { expires, token } => JsonView::Obj(
            seq![
                (
                    "Jwt"@,
                    JsonView::Obj(
                        seq![
                            ("token"@, JsonView::Str(token)),
                            (
                                "expires"@,
                                match expires {
                                    Some(t) => JsonView::Str(rfc3339_of(t)),
                                    None => JsonView::Null,
                                },
                            ),
                        ],
                    ),
                ),
            ],
        ),
        AuthDataView::OAuth { data } => JsonView::Obj(
            seq![("OAuth"@, oauth_doc_spec(data))],
        ),
    }
}

/// Whether a credential's instants all fit chrono's calendar, so that the
/// document for it can be written.
pub open spec fn auth_serializable(a: AuthDataView) -> bool {
    match a {
        AuthDataView::Jwt { expires, .. } => match expires {
            Some(t) => crate::timeutil::ts_renderable(t),
            None => true,
        },
        AuthDataView::OAuth { data } => crate::timeutil::ts_renderable(data.received),
    }
}

proof fn reveal_auth_keys()
    ensures
        "Jwt"@.len() == 3,
        "OAuth"@.len() == 5,
        "token"@.len() == 5,
        "expires"@.len() == 7,
{
    reveal_strlit("Jwt");
    reveal_strlit("OAuth");
    reveal_strlit("token");
    reveal_strlit("expires");
}

/// Writes a credential into its document shape.  Reading the document back
/// yields the very credential.
pub fn auth_to_doc(a: &AuthData) -> (r: Result<Json, ConfigError>)
    ensures
        auth_serializable(a@) ==> r is Ok,
        r matches Err(e) ==> e is FailedSerialize,
        r matches Ok(j) ==> (json_view(j) == auth_doc_spec(a@) && auth_from_doc(json_view(j))
            == Some(a@)),
{
    proof {
        reveal_auth_keys();
    }
    match a {
        AuthData::Jwt { expires, token } => {
            let expires_doc = match expires {
                Some(t) => {
                    if !crate::timeutil::ts_in_render_range(*t) {
                        return Err(
                            ConfigError::FailedSerialize(
                                "expiry instant is out of calendar range".to_owned(),
                            ),
                        );
                    }
                    match crate::timeutil::fmt_rfc3339(*t) {
                        Some(s) => Json::Str(s),
                        None => {
                            return Err(
                                ConfigError::FailedSerialize(
                                    "expiry instant is out of calendar range".to_owned(),
                                ),
                            );
                        },
                    }
                },
                None => Json::Null,
            };
            let mut inner: Vec<(String, Json)> = Vec::new();
            inner.push(("token".to_owned(), Json::Str(token.clone())));
            let ghost i0 = inner@[0];
            proof {
                assert(i0.0@ == "token"@ && json_view(i0.1) == JsonView::Str(token@));
            }
            inner.push(("expires".to_owned(), expires_doc));
            let ghost i1 = inner@[1];
            proof {
                assert(inner@[0] == i0);
                assert(i1.0@ == "expires"@ && json_view(i1.1) == (match a@ {
                    AuthDataView::Jwt { expires: e, .. } => match e {
                        Some(t) => JsonView::Str(rfc3339_of(t)),
                        None => JsonView::Null,
                    },
                    _ => JsonView::Null,
                }));
            }
            let payload = Json::Obj(inner);
            let ghost pv = json_view(payload);
            proof {
                let pf = match pv {
                    JsonView::Obj(f) => f,
                    _ => Seq::empty(),
                };
                assert(pf.len() == 2);
                assert(pf[0] == (i0.0@, json_view(i0.1)));
                assert(pf[1] == (i1.0@, json_view(i1.1)));
            }
            let mut outer: Vec<(String, Json)> = Vec::new();
            outer.push(("Jwt".to_owned(), payload));
            let r = Json::Obj(outer);
            proof {
                let want = match auth_doc_spec(a@) {
                    JsonView::Obj(f) => f,
                    _ => Seq::empty(),
                };
                let got = match json_view(r) {
                    JsonView::Obj(f) => f,
                    _ => Seq::empty(),
                };
                assert(got[0].1 == pv);
                let want_inner = match want[0].1 {
                    JsonView::Obj(f) => f,
                    _ => Seq::empty(),
                };
                let got_inner = match got[0].1 {
                    JsonView::Obj(f) => f,
                    _ => Seq::empty(),
                };
                assert(got_inner.len() == 2 && want_inner.len() == 2);
                assert(got_inner[0] == (i0.0@, json_view(i0.1)));
                assert(got_inner[1] == (i1.0@, json_view(i1.1)));
                assert(got_inner =~= want_inner);
                assert(got[0].0 =~= want[0].0);
                assert(got[0].1 =~~= want[0].1);
                assert(got =~~= want);
                assert(json_view(r) == auth_doc_spec(a@));
                crate::json::lemma_obj_get_at(want_inner, "token"@, 0);
                crate::json::lemma_obj_get_at(want_inner, "expires"@, 1);
                assert(auth_from_doc(json_view(r)) matches Some(x) && x =~~= a@);
            }
            Ok(r)
        },
        AuthData::OAuth { data } => {
            let payload = match oauth_to_doc(data) {
                Ok(p) => p,
                Err(e) => {
                    return Err(e);
                },
            };
            let mut outer: Vec<(String, Json)> = Vec::new();
            outer.push(("OAuth".to_owned(), payload));
            let r = Json::Obj(outer);
            proof {
                let want = match auth_doc_spec(a@) {
                    JsonView::Obj(f) => f,
                    _ => Seq::empty(),
                };
                let got = match json_view(r) {
                    JsonView::Obj(f) => f,
                    _ => Seq::empty(),
                };
                assert(got[0].0 =~= want[0].0);
                assert(got[0].1 == want[0].1);
                assert(got =~~= want);
                assert(json_view(r) == auth_doc_spec(a@));
                assert(auth_from_doc(json_view(r)) matches Some(x) && x =~~= a@);
            }
            Ok(r)
        },
    }
}

/// Reads a credential back out of a document.
pub fn auth_from_doc_exec(j: &Json) -> (r: Result<AuthData, ConfigError>)
    ensures
        auth_from_doc(json_view(*j)) matches Some(v) ==> (r matches Ok(a) && a@ == v),
        auth_from_doc(json_view(*j)) is None ==> (r matches Err(e) && e is FailedDeserialize),
{
    proof {
        reveal_auth_keys();
    }
    let fields = match j {
        Json::Obj(f) => f,
        _ => {
            return Err(ConfigError::FailedDeserialize("credential is not an object".to_owned()));
        },
    };
    if fields.len() != 1 {
        return Err(ConfigError::FailedDeserialize("credential is not singly tagged".to_owned()));
    }
    if str_eq(fields[0].0.as_str(), "Jwt") {
        let inner = match &fields[0].1 {
            Json::Obj(f) => f,
            _ => {
                proof {
                    let gf = match json_view(*j) {
                        JsonView::Obj(f) => f,
                        _ => Seq::empty(),
                    };
                    assert(gf[0].1 == json_view(fields@[0].1));
                    assert(!(gf[0].1 is Obj));
                    assert(auth_from_doc(json_view(*j)) is None);
                }
                return Err(
                    ConfigError::FailedDeserialize("Jwt payload is not an object".to_owned()),
                );
            },
        };
        let token = match crate::json::get_field(inner, "token") {
            Some(Json::Str(s)) => s.clone(),
            _ => {
                return Err(ConfigError::FailedDeserialize("Jwt lacks its token".to_owned()));
            },
        };
        let expires = match crate::json::get_field(inner, "expires") {
            None => None,
            Some(Json::Null) => None,
            Some(Json::Str(s)) => match crate::timeutil::parse_rfc3339(s.as_str()) {
                Some(t) => {
                    if !crate::timeutil::ts_in_render_range(t) {
                        return Err(
                            ConfigError::FailedDeserialize(
                                "expires is out of calendar range".to_owned(),
                            ),
                        );
                    }
                    Some(t)
                },
                None => {
                    return Err(
                        ConfigError::FailedDeserialize("expires is not a timestamp".to_owned()),
                    );
                },
            },
            Some(_) => {
                return Err(ConfigError::FailedDeserialize("expires is malformed".to_owned()));
            },
        };
        Ok(AuthData::Jwt { expires, token })
    } else if str_eq(fields[0].0.as_str(), "OAuth") {
        match oauth_from_doc_exec(&fields[0].1) {
            Ok(d) => Ok(AuthData::OAuth { data: d }),
            Err(e) => Err(e),
        }
    } else {
        Err(ConfigError::FailedDeserialize("unknown credential tag".to_owned()))
    }
}


/// The subscription map a document describes: names to string ids, in
/// document order.
pub open spec fn subs_from_doc(v: JsonView) -> Option<Seq<(Seq<char>, Seq<char>)>> {
    match v {
        JsonView::Obj(f) => if forall|i: int| 0 <= i < f.len() ==> (#[trigger] f[i]).1 is Str {
            Some(
                Seq::new(
                    f.len(),
                    |i: int|
                        (
                            f[i].0,
                            match f[i].1 {
                                JsonView::Str(s) => s,
                                _ => Seq::empty(),
                            },
                        ),
                ),
            )
        } else {
            None
        },
        _ => None,
    }
}

/// The document shape of a subscription map.
pub open spec fn subs_doc_spec(subs: Seq<(Seq<char>, Seq<char>)>) -> JsonView {
    JsonView::Obj(Seq::new(subs.len(), |i: int| (subs[i].0, JsonView::Str(subs[i].1))))
}

/// Reading back the document written for a subscription map yields the same
/// map.
pub proof fn lemma_subs_round_trip(subs: Seq<(Seq<char>, Seq<char>)>)
    ensures
        subs_from_doc(subs_doc_spec(subs)) == Some(subs),
{
    let f = match subs_doc_spec(subs) {
        JsonView::Obj(f) => f,
        _ => Seq::empty(),
    };
    assert(forall|i: int| 0 <= i < f.len() ==> (#[trigger] f[i]).1 is Str);
    let back = match subs_from_doc(subs_doc_spec(subs)) {
        Some(b) => b,
        None => Seq::empty(),
    };
    assert(back =~= subs);
}

/// Writes a subscription map into its document shape.
pub fn subs_to_doc(subs: &Vec<(String, String)>) -> (r: Json)
    ensures
        json_view(r) == subs_doc_spec(
            Seq::new(
                subs@.len(),
                |i: int|
                    if 0 <= i < subs@.len() {
                        (subs@[i].0@, subs@[i].1@)
                    } else {
                        (Seq::empty(), Seq::empty())
                    },
            ),
        ),
        subs_from_doc(json_view(r)) == Some(
            Seq::new(
                subs@.len(),
                |i: int|
                    if 0 <= i < subs@.len() {
                        (subs@[i].0@, subs@[i].1@)
                    } else {
                        (Seq::empty(), Seq::empty())
                    },
            ),
        ),
{
    let mut fields: Vec<(String, Json)> = Vec::new();
    let mut i: usize = 0;
    while i < subs.len()
        invariant
            i <= subs@.len(),
            fields@.len() == i,
            forall|k: int|
                0 <= k < i ==> (#[trigger] fields@[k]).0@ == subs@[k].0@ && json_view(
                    fields@[k].1,
                ) == JsonView::Str(subs@[k].1@),
        decreases subs@.len() - i,
    {
        fields.push((subs[i].0.clone(), Json::Str(subs[i].1.clone())));
        i = i + 1;
    }
    let r = Json::Obj(fields);
    proof {
        let ghost pairs = Seq::new(
            subs@.len(),
            |i: int|
                if 0 <= i < subs@.len() {
                    (subs@[i].0@, subs@[i].1@)
                } else {
                    (Seq::<char>::empty(), Seq::<char>::empty())
                },
        );
        let got = match json_view(r) {
            JsonView::Obj(f) => f,
            _ => Seq::empty(),
        };
        let want = match subs_doc_spec(pairs) {
            JsonView::Obj(f) => f,
            _ => Seq::empty(),
        };
        assert forall|k: int| 0 <= k < got.len() implies got[k] == want[k] by {
            assert(fields@[k].0@ == subs@[k].0@);
            assert(json_view(fields@[k].1) == JsonView::Str(subs@[k].1@));
        }
        assert(got =~= want);
        assert(json_view(r) == subs_doc_spec(pairs));
        lemma_subs_round_trip(pairs);
    }
    r
}

/// Reads a subscription map back out of a document.
pub fn subs_from_doc_exec(j: &Json) -> (r: Result<Vec<(String, String)>, ConfigError>)
    ensures
        subs_from_doc(json_view(*j)) matches Some(v) ==> (r matches Ok(s) && Seq::new(
            s@.len(),
            |i: int|
                if 0 <= i < s@.len() {
                    (s@[i].0@, s@[i].1@)
                } else {
                    (Seq::<char>::empty(), Seq::<char>::empty())
                },
        ) == v),
        subs_from_doc(json_view(*j)) is None ==> (r matches Err(e) && e is FailedDeserialize),
{
    let fields = match j {
        Json::Obj(f) => f,
        _ => {
            return Err(
                ConfigError::FailedDeserialize("subscriptions is not an object".to_owned()),
            );
        },
    };
    let ghost gf = match json_view(*j) {
        JsonView::Obj(f) => f,
        _ => Seq::empty(),
    };
    let mut out: Vec<(String, String)> = Vec::new();
    let mut i: usize = 0;
    while i < fields.len()
        invariant
            i <= fields@.len(),
            out@.len() == i,
            json_view(*j) == JsonView::Obj(gf),
            gf.len() == fields@.len(),
            forall|k: int|
                0 <= k < gf.len() ==> #[trigger] gf[k] == (
                    fields@[k].0@,
                    json_view(fields@[k].1),
                ),
            forall|k: int| 0 <= k < i ==> (#[trigger] gf[k]).1 is Str,
            forall|k: int|
                0 <= k < i ==> (#[trigger] out@[k]).0@ == gf[k].0 && JsonView::Str(out@[k].1@)
                    == gf[k].1,
        decreases fields@.len() - i,
    {
        match &fields[i].1 {
            Json::Str(s) => {
                out.push((fields[i].0.clone(), s.clone()));
            },
            _ => {
                proof {
                    assert(gf[i as int].1 == json_view(fields@[i as int].1));
                    assert(!(gf[i as int].1 is Str));
                    assert(subs_from_doc(json_view(*j)) is None);
                }
                return Err(
                    ConfigError::FailedDeserialize("subscription id is not a string".to_owned()),
                );
            },
        }
        i = i + 1;
    }
    proof {
        let back = match subs_from_doc(json_view(*j)) {
            Some(b) => b,
            None => Seq::empty(),
        };
        let mine = Seq::new(
            out@.len(),
            |i: int|
                if 0 <= i < out@.len() {
                    (out@[i].0@, out@[i].1@)
                } else {
                    (Seq::<char>::empty(), Seq::<char>::empty())
                },
        );
        assert forall|k: int| 0 <= k < gf.len() implies mine[k] == back[k] by {
            assert((out@[k]).0@ == gf[k].0);
            assert(JsonView::Str(out@[k].1@) == gf[k].1);
        }
        assert(mine =~= back);
    }
    Ok(out)
}

/// The connection a document describes, if it is well formed.  A missing
/// subscription map stands for an empty one, and a missing or null `auth`
/// for no stored credential.
pub open spec fn conn_from_doc(v: JsonView) -> Option<ConnectionView> {
    match v {
        JsonView::Obj(f) => match (str_field(f, "server"@), opt_str_field(f, "user"@), str_field(
            f,
            "username"@,
        ), opt_str_field(f, "default_subscription"@)) {
            (Some(server), Some(user), Some(username), Some(ds)) => {
                let subs_opt = match obj_get(f, "subscriptions"@) {
                    None => Some(Seq::<(Seq<char>, Seq<char>)>::empty()),
                    Some(sv) => subs_from_doc(sv),
                };
                let auth_opt = match obj_get(f, "auth"@) {
                    None => Some(None),
                    Some(JsonView::Null) => Some(None),
                    Some(av) => match auth_from_doc(av) {
                        Some(a) => Some(Some(a)),
                        None => None,
                    },
                };
                match (subs_opt, auth_opt) {
                    (Some(subs), Some(auth)) => Some(
                        ConnectionView {
                            server,
                            user_id: match user {
                                Some(u) => u,
                                None => Seq::empty(),
                            },
                            username,
                            default_subscription: ds,
                            subscriptions: subs,
                            auth,
                        },
                    ),
                    _ => None,
                }
            },
            _ => None,
        },
        _ => None,
    }
}

/// The document shape of a connection.
pub open spec fn conn_doc_spec(c: ConnectionView) -> JsonView {
    JsonView::Obj(
        seq![
            ("server"@, JsonView::Str(c.server)),
            (
                "user"@,
                if c.user_id.len() == 0 {
                    JsonView::Null
                } else {
                    JsonView::Str(c.user_id)
                },
            ),
            ("username"@, JsonView::Str(c.username)),
            (
                "default_subscription"@,
                match c.default_subscription {
                    Some(s) => JsonView::Str(s),
                    None => JsonView::Null,
                },
            ),
            ("subscriptions"@, subs_doc_spec(c.subscriptions)),
            (
                "auth"@,
                match c.auth {
                    Some(a) => auth_doc_spec(a),
                    None => JsonView::Null,
                },
            ),
        ],
    )
}

/// Whether a connection's credential, if any, can be written out.
pub open spec fn conn_serializable(c: ConnectionView) -> bool {
    match c.auth {
        Some(a) => auth_serializable(a),
        None => true,
    }
}

proof fn reveal_conn_keys()
    ensures
        "server"@.len() == 6,
        "user"@.len() == 4,
        "username"@.len() == 8,
        "default_subscription"@.len() == 20,
        "subscriptions"@.len() == 13,
        "auth"@.len() == 4,
        "user"@ != "auth"@,
{
    reveal_strlit("server");
    reveal_strlit("user");
    reveal_strlit("username");
    reveal_strlit("default_subscription");
    reveal_strlit("subscriptions");
    reveal_strlit("auth");
    assert("user"@[0] != "auth"@[0]);
}

/// Writes a connection into its document shape.  Reading the document back
/// yields the very connection.
pub fn conn_to_doc(c: &Connection) -> (r: Result<Json, ConfigError>)
    ensures
        conn_serializable(c@) ==> r is Ok,
        r matches Err(e) ==> e is FailedSerialize,
        r matches Ok(j) ==> (json_view(j) == conn_doc_spec(c@) && conn_from_doc(json_view(j))
            == Some(c@)),
{
    proof {
        reveal_conn_keys();
    }
    let auth_doc = match &c.auth {
        Some(a) => match auth_to_doc(a) {
            Ok(d) => d,
            Err(e) => {
                return Err(e);
            },
        },
        None => Json::Null,
    };
    let mut fields: Vec<(String, Json)> = Vec::new();
    fields.push(("server".to_owned(), Json::Str(c.server.clone())));
    let ghost e0 = fields@[0];
    proof {
        assert(e0.0@ == "server"@ && json_view(e0.1) == JsonView::Str(c@.server));
    }
    fields.push((
        "user".to_owned(),
        if c.user_id.as_str().unicode_len() == 0 {
            Json::Null
        } else {
            Json::Str(c.user_id.clone())
        },
    ));
    let ghost e1 = fields@[1];
    proof {
        assert(fields@[0] == e0);
        assert(e1.0@ == "user"@ && json_view(e1.1) == (if c@.user_id.len() == 0 {
            JsonView::Null
        } else {
            JsonView::Str(c@.user_id)
        }));
    }
    fields.push(("username".to_owned(), Json::Str(c.username.clone())));
    let ghost e2 = fields@[2];
    proof {
        assert(fields@[0] == e0 && fields@[1] == e1);
        assert(e2.0@ == "username"@ && json_view(e2.1) == JsonView::Str(c@.username));
    }
    fields.push((
        "default_subscription".to_owned(),
        match &c.default_subscription {
            Some(s) => Json::Str(s.clone()),
            None => Json::Null,
        },
    ));
    let ghost e3 = fields@[3];
    proof {
        assert(fields@[0] == e0 && fields@[1] == e1 && fields@[2] == e2);
        assert(e3.0@ == "default_subscription"@ && json_view(e3.1) == (
        match c@.default_subscription {
            Some(s) => JsonView::Str(s),
            None => JsonView::Null,
        }));
    }
    fields.push(("subscriptions".to_owned(), subs_to_doc(&c.subscriptions)));
    let ghost e4 = fields@[4];
    proof {
        assert(fields@[0] == e0 && fields@[1] == e1 && fields@[2] == e2 && fields@[3] == e3);
        assert(c@.subscriptions =~= Seq::new(
            c.subscriptions@.len(),
            |i: int|
                if 0 <= i < c.subscriptions@.len() {
                    (c.subscriptions@[i].0@, c.subscriptions@[i].1@)
                } else {
                    (Seq::<char>::empty(), Seq::<char>::empty())
                },
        ));
        assert(e4.0@ == "subscriptions"@ && json_view(e4.1) == subs_doc_spec(c@.subscriptions));
        assert(subs_from_doc(json_view(e4.1)) == Some(c@.subscriptions));
    }
    fields.push(("auth".to_owned(), auth_doc));
    let ghost e5 = fields@[5];
    proof {
        assert(fields@[0] == e0 && fields@[1] == e1 && fields@[2] == e2 && fields@[3] == e3
            && fields@[4] == e4);
        assert(e5.0@ == "auth"@ && json_view(e5.1) == (match c@.auth {
            Some(a) => auth_doc_spec(a),
            None => JsonView::Null,
        }));
    }
    let r = Json::Obj(fields);
    proof {
        let want = match conn_doc_spec(c@) {
            JsonView::Obj(f) => f,
            _ => Seq::empty(),
        };
        let got = match json_view(r) {
            JsonView::Obj(f) => f,
            _ => Seq::empty(),
        };
        assert(got.len() == 6 && want.len() == 6);
        assert(got[0] == (e0.0@, json_view(e0.1)));
        assert(got[1] == (e1.0@, json_view(e1.1)));
        assert(got[2] == (e2.0@, json_view(e2.1)));
        assert(got[3] == (e3.0@, json_view(e3.1)));
        assert(got[4] == (e4.0@, json_view(e4.1)));
        assert(got[5] == (e5.0@, json_view(e5.1)));
        assert(got =~= want);
        assert(json_view(r) == conn_doc_spec(c@));
        crate::json::lemma_obj_get_at(want, "server"@, 0);
        crate::json::lemma_obj_get_at(want, "user"@, 1);
        crate::json::lemma_obj_get_at(want, "username"@, 2);
        crate::json::lemma_obj_get_at(want, "default_subscription"@, 3);
        crate::json::lemma_obj_get_at(want, "subscriptions"@, 4);
        crate::json::lemma_obj_get_at(want, "auth"@, 5);
        lemma_subs_round_trip(c@.subscriptions);
        assert(conn_from_doc(json_view(r)) matches Some(x) && x =~~= c@);
    }
    Ok(r)
}

/// Reads a connection back out of a document.
pub fn conn_from_doc_exec(j: &Json) -> (r: Result<Connection, ConfigError>)
    ensures
        conn_from_doc(json_view(*j)) matches Some(v) ==> (r matches Ok(c) && c@ == v),
        conn_from_doc(json_view(*j)) is None ==> (r matches Err(e) && e is FailedDeserialize),
{
    proof {
        reveal_conn_keys();
    }
    let fields = match j {
        Json::Obj(f) => f,
        _ => {
            return Err(ConfigError::FailedDeserialize("connection is not an object".to_owned()));
        },
    };
    let server = match crate::json::get_field(fields, "server") {
        Some(Json::Str(s)) => s.clone(),
        _ => {
            return Err(ConfigError::FailedDeserialize("connection lacks server".to_owned()));
        },
    };
    let user_id = match crate::json::get_field(fields, "user") {
        None => String::new(),
        Some(Json::Null) => String::new(),
        Some(Json::Str(s)) => s.clone(),
        Some(_) => {
            return Err(ConfigError::FailedDeserialize("user is malformed".to_owned()));
        },
    };
    let username = match crate::json::get_field(fields, "username") {
        Some(Json::Str(s)) => s.clone(),
        _ => {
            return Err(ConfigError::FailedDeserialize("connection lacks username".to_owned()));
        },
    };
    let default_subscription = match crate::json::get_field(fields, "default_subscription") {
        None => None,
        Some(Json::Null) => None,
        Some(Json::Str(s)) => Some(s.clone()),
        Some(_) => {
            return Err(
                ConfigError::FailedDeserialize("default_subscription is malformed".to_owned()),
            );
        },
    };
    let subscriptions = match crate::json::get_field(fields, "subscriptions") {
        Some(v) => match subs_from_doc_exec(v) {
            Ok(s) => s,
            Err(e) => {
                return Err(e);
            },
        },
        None => Vec::new(),
    };
    let auth = match crate::json::get_field(fields, "auth") {
        None => None,
        Some(Json::Null) => None,
        Some(av) => match auth_from_doc_exec(av) {
            Ok(a) => Some(a),
            Err(e) => {
                return Err(e);
            },
        },
    };
    let c = Connection { server, user_id, username, default_subscription, subscriptions, auth };
    proof {
        let v = match conn_from_doc(json_view(*j)) {
            Some(v) => v,
            None => c@,
        };
        assert(c@ =~~= v);
    }
    Ok(c)
}


/// A placeholder connection shape, used only to keep spec expressions total.
pub open spec fn empty_conn_view() -> ConnectionView {
    ConnectionView {
        server: Seq::empty(),
        user_id: Seq::empty(),
        username: Seq::empty(),
        default_subscription: None,
        subscriptions: Seq::empty(),
        auth: None,
    }
}

/// The configuration a document describes, if it is well formed: connection
/// names must be unique, so that the store's invariant holds on load.
pub open spec fn config_from_doc(v: JsonView) -> Option<ConfigurationView> {
    match v {
        JsonView::Obj(f) => match str_field(f, "default_connection"@) {
            Some(dc) => match obj_get(f, "connections"@) {
                Some(JsonView::Obj(cf)) => if (forall|i: int, j: int|
                    0 <= i < j < cf.len() ==> (#[trigger] cf[i]).0 != (#[trigger] cf[j]).0) && (
                forall|i: int| 0 <= i < cf.len() ==> conn_from_doc((#[trigger] cf[i]).1) is Some) {
                    Some(
                        ConfigurationView {
                            default_connection: dc,
                            connections: Seq::new(
                                cf.len(),
                                |i: int|
                                    (
                                        cf[i].0,
                                        match conn_from_doc(cf[i].1) {
                                            Some(c) => c,
                                            None => empty_conn_view(),
                                        },
                                    ),
                            ),
                        },
                    )
                } else {
                    None
                },
                _ => None,
            },
            None => None,
        },
        _ => None,
    }
}

/// The document shape of a configuration.
pub open spec fn config_doc_spec(v: ConfigurationView) -> JsonView {
    JsonView::Obj(
        seq![
            ("default_connection"@, JsonView::Str(v.default_connection)),
            (
                "connections"@,
                JsonView::Obj(
                    Seq::new(
                        v.connections.len(),
                        |i: int| (v.connections[i].0, conn_doc_spec(v.connections[i].1)),
                    ),
                ),
            ),
        ],
    )
}

/// Whether every stored credential can be written out.
pub open spec fn config_serializable(v: ConfigurationView) -> bool {
    forall|i: int|
        0 <= i < v.connections.len() ==> conn_serializable((#[trigger] v.connections[i]).1)
}

proof fn reveal_config_keys()
    ensures
        "default_connection"@.len() == 18,
        "connections"@.len() == 11,
{
    reveal_strlit("default_connection");
    reveal_strlit("connections");
}

/// Writes the configuration into its document shape — the `save` half of
/// the store.  Reading the document back yields the very configuration:
/// saving what was loaded changes nothing.
pub fn config_to_doc(cfg: &Configuration) -> (r: Result<Json, ConfigError>)
    ensures
        cfg.wf() && config_serializable(cfg@) ==> r is Ok,
        r matches Err(e) ==> e is FailedSerialize,
        r matches Ok(j) ==> json_view(j) == config_doc_spec(cfg@),
        cfg.wf() ==> (r matches Ok(j) ==> config_from_doc(json_view(j)) == Some(cfg@)),
{
    proof {
        reveal_config_keys();
    }
    let mut entries: Vec<(String, Json)> = Vec::new();
    let mut i: usize = 0;
    while i < cfg.connections.len()
        invariant
            i <= cfg.connections@.len(),
            entries@.len() == i,
            cfg@.connections.len() == cfg.connections@.len(),
            forall|k: int|
                0 <= k < cfg.connections@.len() ==> #[trigger] cfg@.connections[k] == (
                    cfg.connections@[k].0@,
                    cfg.connections@[k].1@,
                ),
            forall|k: int|
                0 <= k < i ==> (#[trigger] entries@[k]).0@ == cfg@.connections[k].0 && json_view(
                    entries@[k].1,
                ) == conn_doc_spec(cfg@.connections[k].1) && conn_from_doc(
                    json_view(entries@[k].1),
                ) == Some(cfg@.connections[k].1),
        decreases cfg.connections@.len() - i,
    {
        let doc = match conn_to_doc(&cfg.connections[i].1) {
            Ok(d) => d,
            Err(e) => {
                proof {
                    assert(!conn_serializable(cfg@.connections[i as int].1));
                }
                return Err(e);
            },
        };
        entries.push((cfg.connections[i].0.clone(), doc));
        i = i + 1;
    }
    let inner = Json::Obj(entries);
    let ghost iv = json_view(inner);
    proof {
        let inf = match iv {
            JsonView::Obj(f) => f,
            _ => Seq::empty(),
        };
        let want_inner = Seq::new(
            cfg@.connections.len(),
            |i: int| (cfg@.connections[i].0, conn_doc_spec(cfg@.connections[i].1)),
        );
        assert forall|k: int| 0 <= k < inf.len() implies inf[k] == want_inner[k] by {
            assert(entries@[k].0@ == cfg@.connections[k].0);
            assert(json_view(entries@[k].1) == conn_doc_spec(cfg@.connections[k].1));
        }
        assert(inf =~= want_inner);
        assert(forall|k: int|
            0 <= k < inf.len() ==> conn_from_doc((#[trigger] inf[k]).1) == Some(
                cfg@.connections[k].1,
            ));
    }
    let mut fields: Vec<(String, Json)> = Vec::new();
    fields.push(("default_connection".to_owned(), Json::Str(cfg.default_connection.clone())));
    let ghost e0 = fields@[0];
    proof {
        assert(e0.0@ == "default_connection"@ && json_view(e0.1) == JsonView::Str(
            cfg@.default_connection,
        ));
    }
    fields.push(("connections".to_owned(), inner));
    let ghost e1 = fields@[1];
    proof {
        assert(fields@[0] == e0);
        assert(e1.0@ == "connections"@ && json_view(e1.1) == iv);
    }
    let r = Json::Obj(fields);
    proof {
        let want = match config_doc_spec(cfg@) {
            JsonView::Obj(f) => f,
            _ => Seq::empty(),
        };
        let got = match json_view(r) {
            JsonView::Obj(f) => f,
            _ => Seq::empty(),
        };
        assert(got.len() == 2 && want.len() == 2);
        assert(got[0] == (e0.0@, json_view(e0.1)));
        assert(got[1] == (e1.0@, json_view(e1.1)));
        assert(got[0].0 =~= want[0].0);
        assert(got[0].1 == want[0].1);
        assert(got[1].0 =~= want[1].0);
        assert(got[1].1 =~~= want[1].1);
        assert(got =~~= want);
        assert(json_view(r) == config_doc_spec(cfg@));
        if cfg.wf() {
            crate::json::lemma_obj_get_at(got, "default_connection"@, 0);
            crate::json::lemma_obj_get_at(got, "connections"@, 1);
            let cf = match got[1].1 {
                JsonView::Obj(f) => f,
                _ => Seq::empty(),
            };
            assert forall|a: int, b: int| 0 <= a < b < cf.len() implies (#[trigger] cf[a]).0 != (
            #[trigger] cf[b]).0 by {
                assert(cf[a].0 == cfg@.connections[a].0);
                assert(cf[b].0 == cfg@.connections[b].0);
                assert(cfg.connections@[a].0@ != cfg.connections@[b].0@);
            }
            let back = match config_from_doc(json_view(r)) {
                Some(b) => b,
                None => cfg@,
            };
            assert(back.connections =~= cfg@.connections);
            assert(back =~~= cfg@);
        }
    }
    Ok(r)
}

/// A grant a document describes carries a renderable instant.
pub proof fn lemma_oauth_from_doc_serializable(v: JsonView)
    ensures
        oauth_from_doc(v) matches Some(d) ==> crate::timeutil::ts_renderable(d.received),
{
}

/// A credential a document describes carries only renderable instants, so
/// it can always be written out again.
pub proof fn lemma_auth_from_doc_serializable(v: JsonView)
    ensures
        auth_from_doc(v) matches Some(a) ==> auth_serializable(a),
{
    if auth_from_doc(v) is Some {
        match v {
            JsonView::Obj(f) => {
                if f.len() == 1 && !(f[0].0 == "Jwt"@) && f[0].0 == "OAuth"@ {
                    lemma_oauth_from_doc_serializable(f[0].1);
                }
            },
            _ => {},
        }
    }
}

/// A connection a document describes can always be written out again.
pub proof fn lemma_conn_from_doc_serializable(v: JsonView)
    ensures
        conn_from_doc(v) matches Some(c) ==> conn_serializable(c),
{
    if conn_from_doc(v) is Some {
        match v {
            JsonView::Obj(f) => {
                match obj_get(f, "auth"@) {
                    Some(av) => lemma_auth_from_doc_serializable(av),
                    None => {},
                }
            },
            _ => {},
        }
    }
}

/// What `config_from_doc` reads back, `config_to_doc` can always write
/// again: saving a loaded configuration succeeds.
pub proof fn lemma_config_from_doc_serializable(v: JsonView)
    ensures
        config_from_doc(v) matches Some(cv) ==> config_serializable(cv),
{
    if config_from_doc(v) is Some {
        let cv = match config_from_doc(v) {
            Some(c) => c,
            None => ConfigurationView {
                default_connection: Seq::empty(),
                connections: Seq::empty(),
            },
        };
        match v {
            JsonView::Obj(f) => {
                match obj_get(f, "connections"@) {
                    Some(JsonView::Obj(cf)) => {
                        assert forall|i: int|
                            0 <= i < cv.connections.len() implies conn_serializable(
                            (#[trigger] cv.connections[i]).1,
                        ) by {
                            lemma_conn_from_doc_serializable(cf[i].1);
                        }
                    },
                    _ => {},
                }
            },
            _ => {},
        }
    }
}

/// Reads a configuration back out of a document — the `load` half of the
/// store.  The loaded store satisfies its invariant: names are unique.
pub fn config_from_doc_exec(j: &Json) -> (r: Result<Configuration, ConfigError>)
    ensures
        config_from_doc(json_view(*j)) matches Some(v) ==> (r matches Ok(cfg) && cfg@ == v
            && cfg.wf() && config_serializable(cfg@)),
        config_from_doc(json_view(*j)) is None ==> (r matches Err(e) && e is FailedDeserialize),
{
    proof {
        reveal_config_keys();
        lemma_config_from_doc_serializable(json_view(*j));
    }
    let fields = match j {
        Json::Obj(f) => f,
        _ => {
            return Err(
                ConfigError::FailedDeserialize("configuration is not an object".to_owned()),
            );
        },
    };
    let default_connection = match crate::json::get_field(fields, "default_connection") {
        Some(Json::Str(s)) => s.clone(),
        _ => {
            return Err(
                ConfigError::FailedDeserialize(
                    "configuration lacks default_connection".to_owned(),
                ),
            );
        },
    };
    let entries = match crate::json::get_field(fields, "connections") {
        Some(Json::Obj(e)) => e,
        Some(_) => {
            return Err(ConfigError::FailedDeserialize("connections is malformed".to_owned()));
        },
        None => {
            return Err(
                ConfigError::FailedDeserialize("configuration lacks connections".to_owned()),
            );
        },
    };
    let ghost cf = match json_view(Json::Obj(*entries)) {
        JsonView::Obj(f) => f,
        _ => Seq::empty(),
    };
    let ghost gf = match json_view(*j) {
        JsonView::Obj(f) => f,
        _ => Seq::empty(),
    };
    proof {
        assert(json_view(*j) == JsonView::Obj(gf));
        assert(str_field(gf, "default_connection"@) == Some(default_connection@));
        assert(obj_get(gf, "connections"@) == Some(JsonView::Obj(cf)));
    }
    let mut out: Vec<(String, Connection)> = Vec::new();
    let mut i: usize = 0;
    while i < entries.len()
        invariant
            i <= entries@.len(),
            out@.len() == i,
            json_view(*j) == JsonView::Obj(gf),
            str_field(gf, "default_connection"@) == Some(default_connection@),
            obj_get(gf, "connections"@) == Some(JsonView::Obj(cf)),
            cf.len() == entries@.len(),
            forall|k: int|
                0 <= k < cf.len() ==> #[trigger] cf[k] == (
                    entries@[k].0@,
                    json_view(entries@[k].1),
                ),
            forall|k: int| 0 <= k < i ==> conn_from_doc((#[trigger] cf[k]).1) is Some,
            forall|k: int|
                0 <= k < i ==> (#[trigger] out@[k]).0@ == cf[k].0 && Some(out@[k].1@)
                    == conn_from_doc(cf[k].1),
            forall|a: int, b: int| 0 <= a < b < i ==> (#[trigger] cf[a]).0 != (#[trigger] cf[b]).0,
        decreases entries@.len() - i,
    {
        let c = match conn_from_doc_exec(&entries[i].1) {
            Ok(c) => c,
            Err(e) => {
                proof {
                    assert(cf[i as int].1 == json_view(entries@[i as int].1));
                    assert(conn_from_doc(cf[i as int].1) is None);
                    assert(config_from_doc(json_view(*j)) is None);
                }
                return Err(e);
            },
        };
        let mut k: usize = 0;
        while k < out.len()
            invariant
                k <= out@.len(),
                out@.len() == i,
                i < entries@.len(),
                json_view(*j) == JsonView::Obj(gf),
                str_field(gf, "default_connection"@) == Some(default_connection@),
                obj_get(gf, "connections"@) == Some(JsonView::Obj(cf)),
                cf.len() == entries@.len(),
                forall|m: int|
                    0 <= m < cf.len() ==> #[trigger] cf[m] == (
                        entries@[m].0@,
                        json_view(entries@[m].1),
                    ),
                forall|m: int| 0 <= m < i ==> (#[trigger] out@[m]).0@ == cf[m].0,
                forall|m: int| 0 <= m < k ==> (#[trigger] out@[m]).0@ != entries@[i as int].0@,
            decreases out@.len() - k,
        {
            if str_eq(out[k].0.as_str(), entries[i].0.as_str()) {
                proof {
                    assert(cf[k as int].0 == out@[k as int].0@);
                    assert(cf[i as int].0 == entries@[i as int].0@);
                    assert(cf[k as int].0 == cf[i as int].0);
                    assert(!(forall|a: int, b: int|
                        0 <= a < b < cf.len() ==> (#[trigger] cf[a]).0 != (#[trigger] cf[b]).0));
                    assert(config_from_doc(json_view(*j)) is None);
                }
                return Err(
                    ConfigError::FailedDeserialize("a connection name repeats".to_owned()),
                );
            }
            k = k + 1;
        }
        proof {
            assert forall|m: int| 0 <= m < i implies (#[trigger] cf[m]).0 != cf[i as int].0 by {
                assert(out@[m].0@ != entries@[i as int].0@);
                assert(cf[m].0 == out@[m].0@);
                assert(cf[i as int].0 == entries@[i as int].0@);
            }
        }
        out.push((entries[i].0.clone(), c));
        i = i + 1;
    }
    let cfg = Configuration { default_connection, connections: out };
    proof {
        let v = match config_from_doc(json_view(*j)) {
            Some(v) => v,
            None => cfg@,
        };
        assert(config_from_doc(json_view(*j)) is Some);
        assert(cfg@.connections.len() == v.connections.len());
        assert forall|m: int| 0 <= m < cfg@.connections.len() implies cfg@.connections[m]
            == v.connections[m] by {
            assert(cfg@.connections[m] == (cfg.connections@[m].0@, cfg.connections@[m].1@));
            assert(Some(out@[m].1@) == conn_from_doc(cf[m].1));
        }
        assert(cfg@.connections =~= v.connections);
        assert(cfg@ =~~= v);
        assert forall|a: int, b: int|
            0 <= a < b < cfg.connections@.len() implies cfg.connections@[a].0@
            != cfg.connections@[b].0@ by {
            assert(out@[a].0@ == cf[a].0);
            assert(out@[b].0@ == cf[b].0);
        }
    }
    Ok(cfg)
}

} // verus!
