use vstd::prelude::*;

use crate::errors::TwitterDataError;
use crate::json::JsonValue;
use crate::json::json_get;
use crate::json::json_read_bool;
use crate::json::json_read_string;
use crate::json::json_read_u64;
use crate::json::lemma_obj_get_decreases;
use crate::json::parse_json_text;
use crate::json::spec_obj_get;
use crate::json::spec_parse_json;
use crate::json::spec_read_bool;
use crate::json::spec_read_string;
use crate::json::spec_read_u64;

verus! {

/// Where a timeline entry came from: the public feed, or a direct message
/// addressed to the given user.
#[derive(Debug)]
pub enum StatusType {
    PublicStatus,
    DirectMessageTo(User),
}

/// One timeline entry.
#[derive(Debug)]
pub struct Status {
    pub status_type: StatusType,
    pub id: u64,
    pub user: User,
    pub text: String,
    pub in_reply_to_status_id: Option<u64>,
    pub retweeted_status: Option<Box<Status>>,
    pub quoted_status: Option<Box<Status>>,
}

/// The author of a timeline entry.
#[derive(Debug)]
pub struct User {
    pub id: u64,
    pub screen_name: String,
    pub name: String,
    pub description: String,
    pub is_protected: bool,
}

/// The object holds everything a user record requires.
pub open spec fn user_wf(v: JsonValue) -> bool {
    &&& spec_read_u64(v, "id"@) is Some
    &&& spec_read_string(v, "screen_name"@) is Some
    &&& spec_read_string(v, "name"@) is Some
    &&& spec_read_string(v, "description"@) is Some
    &&& spec_read_bool(v, "protected"@) is Some
}

/// The user record a well-formed object denotes.
pub open spec fn spec_user(v: JsonValue) -> User
    recommends
        user_wf(v),
{
    User {
        id: spec_read_u64(v, "id"@)->Some_0,
        screen_name: spec_read_string(v, "screen_name"@)->Some_0,
        name: spec_read_string(v, "name"@)->Some_0,
        description: spec_read_string(v, "description"@)->Some_0,
        is_protected: spec_read_bool(v, "protected"@)->Some_0,
    }
}

/// The first member a malformed user object lacks, in the order they are read.
pub open spec fn spec_user_err(v: JsonValue) -> Seq<char> {
    if spec_read_u64(v, "id"@) is None {
        "id"@
    } else if spec_read_string(v, "screen_name"@) is None {
        "screen_name"@
    } else if spec_read_string(v, "name"@) is None {
        "name"@
    } else if spec_read_string(v, "description"@) is None {
        "description"@
    } else {
        "protected"@
    }
}

impl User {
    /// Read a user record out of a parsed document.
    pub fn deserialize_json_value(value: &JsonValue) -> (r: Result<User, TwitterDataError>)
        ensures
            r is Ok <==> user_wf(*value),
            r matches Ok(u) ==> u == spec_user(*value),
            r matches Err(e) ==> e.field@ == spec_user_err(*value),
    {
        let id = match json_read_u64(value, "id") {
            Ok(u) => u,
            Err(e) => {
                return Err(e);
            },
        };
        let screen_name = match json_read_string(value, "screen_name") {
            Ok(s) => s,
            Err(e) => {
                return Err(e);
            },
        };
        let name = match json_read_string(value, "name") {
            Ok(s) => s,
            Err(e) => {
                return Err(e);
            },
        };
        let description = match json_read_string(value, "description") {
            Ok(s) => s,
            Err(e) => {
                return Err(e);
            },
        };
        let is_protected = match json_read_bool(value, "protected") {
            Ok(b) => b,
            Err(e) => {
                return Err(e);
            },
        };
        Ok(User { id, screen_name, name, description, is_protected })
    }

    /// Parse a text and read a user record out of it.
    pub fn deserialize_json(json: &str) -> (r: Result<User, TwitterDataError>)
        ensures
            r is Ok <==> (spec_parse_json(json@) matches Some(v) && user_wf(v)),
            r matches Ok(u) ==> u == spec_user(spec_parse_json(json@)->Some_0),
    {
        match parse_json_text(json) {
            Some(v) => User::deserialize_json_value(&v),
            None => Err(TwitterDataError::new("user".to_owned(), String::new())),
        }
    }
}

/// The reply gate the entry carries: its `in_reply_to_status_id` member when
/// that is a positive integer, nothing otherwise.
pub open spec fn spec_reply_id(v: JsonValue) -> Option<u64> {
    match spec_read_u64(v, "in_reply_to_status_id"@) {
        Some(u) => if u > 0 {
            Some(u)
        } else {
            None
        },
        None => None,
    }
}

/// The object holds everything a timeline entry requires: a direct message
/// carries a parsable `recipient`; a public entry's nested reshared or quoted
/// entries are themselves well-formed; and `id`, `user` and `text` are there.
pub open spec fn status_wf(v: JsonValue) -> bool
    decreases v,
    via status_wf_dec
{
    let dm = spec_read_string(v, "recipient"@);
    &&& match dm {
        Some(rs) => spec_parse_json(rs@) matches Some(uv) && user_wf(uv),
        None => true,
    }
    &&& (dm is None ==> match spec_obj_get(v, "retweeted_status"@) {
        Some(rv) => status_wf(rv),
        None => true,
    })
    &&& (dm is None ==> match spec_obj_get(v, "quoted_status"@) {
        Some(qv) => status_wf(qv),
        None => true,
    })
    &&& spec_read_u64(v, "id"@) is Some
    &&& (spec_obj_get(v, "user"@) matches Some(uv) && user_wf(uv))
    &&& spec_read_string(v, "text"@) is Some
}

#[via_fn]
proof fn status_wf_dec(v: JsonValue) {
    if spec_obj_get(v, "retweeted_status"@) is Some {
        lemma_obj_get_decreases(v, "retweeted_status"@);
    }
    if spec_obj_get(v, "quoted_status"@) is Some {
        lemma_obj_get_decreases(v, "quoted_status"@);
    }
}

/// The entry `s` is exactly what the document `v` denotes, member for member,
/// nested entries included.
pub open spec fn status_matches(v: JsonValue, s: Status) -> bool
    decreases v,
    via status_matches_dec
{
    let dm = spec_read_string(v, "recipient"@);
    &&& match dm {
        Some(rs) => s.status_type matches StatusType::DirectMessageTo(u) && (spec_parse_json(rs@)
            matches Some(uv) && (user_wf(uv) && u == spec_user(uv))),
        None => s.status_type is PublicStatus,
    }
    &&& match (dm, spec_obj_get(v, "retweeted_status"@)) {
        (None, Some(rv)) => s.retweeted_status matches Some(b) && status_matches(rv, *b),
        _ => s.retweeted_status is None,
    }
    &&& match (dm, spec_obj_get(v, "quoted_status"@)) {
        (None, Some(qv)) => s.quoted_status matches Some(b) && status_matches(qv, *b),
        _ => s.quoted_status is None,
    }
    &&& s.in_reply_to_status_id == spec_reply_id(v)
    &&& spec_read_u64(v, "id"@) == Some(s.id)
    &&& (spec_obj_get(v, "user"@) matches Some(uv) && (user_wf(uv) && s.user == spec_user(uv)))
    &&& spec_read_string(v, "text"@) == Some(s.text)
}

#[via_fn]
proof fn status_matches_dec(v: JsonValue, s: Status) {
    if spec_read_string(v, "recipient"@) is None {
        if spec_obj_get(v, "retweeted_status"@) is Some {
            lemma_obj_get_decreases(v, "retweeted_status"@);
        }
        if spec_obj_get(v, "quoted_status"@) is Some {
            lemma_obj_get_decreases(v, "quoted_status"@);
        }
    }
}

impl Status {
    /// Read a timeline entry out of a parsed document. A `recipient` member
    /// marks a direct message, whose nested entries are never consulted; a
    /// public entry's reshared and quoted entries are read recursively.
    pub fn deserialize_json_value(value: &JsonValue) -> (r: Result<Status, TwitterDataError>)
        ensures
            r is Ok <==> status_wf(*value),
            r matches Ok(s) ==> status_matches(*value, s),
        decreases *value,
    {
        let status_type: StatusType;
        let is_dm: bool;
        match json_get(value, "recipient") {
            Some(JsonValue::Str(rs)) => {
                match parse_json_text(rs.as_str()) {
                    Some(uv) => {
                        match User::deserialize_json_value(&uv) {
                            Ok(u) => {
                                status_type = StatusType::DirectMessageTo(u);
                                is_dm = true;
                            },
                            Err(e) => {
                                return Err(e);
                            },
                        }
                    },
                    None => {
                        return Err(TwitterDataError::new("recipient".to_owned(), String::new()));
                    },
                }
            },
            _ => {
                status_type = StatusType::PublicStatus;
                is_dm = false;
            },
        }
        let retweeted_status: Option<Box<Status>> = if is_dm {
            None
        } else {
            match json_get(value, "retweeted_status") {
                Some(rv) => {
                    proof {
                        lemma_obj_get_decreases(*value, "retweeted_status"@);
                    }
                    match Status::deserialize_json_value(rv) {
                        Ok(s) => Some(Box::new(s)),
                        Err(e) => {
                            return Err(e);
                        },
                    }
                },
                None => None,
            }
        };
        let quoted_status: Option<Box<Status>> = if is_dm {
            None
        } else {
            match json_get(value, "quoted_status") {
                Some(qv) => {
                    proof {
                        lemma_obj_get_decreases(*value, "quoted_status"@);
                    }
                    match Status::deserialize_json_value(qv) {
                        Ok(s) => Some(Box::new(s)),
                        Err(e) => {
                            return Err(e);
                        },
                    }
                },
                None => None,
            }
        };
        let in_reply_to_status_id: Option<u64> = match json_get(value, "in_reply_to_status_id") {
            Some(JsonValue::UInt(u)) => if *u > 0 {
                Some(*u)
            } else {
                None
            },
            _ => None,
        };
        let id = match json_read_u64(value, "id") {
            Ok(u) => u,
            Err(e) => {
                return Err(e);
            },
        };
        let user = match json_get(value, "user") {
            Some(uv) => match User::deserialize_json_value(uv) {
                Ok(u) => u,
                Err(e) => {
                    return Err(e);
                },
            },
            None => {
                return Err(TwitterDataError::new("user".to_owned(), String::new()));
            },
        };
        let text = match json_read_string(value, "text") {
            Ok(t) => t,
            Err(e) => {
                return Err(e);
            },
        };
        Ok(Status {
            status_type,
            id,
            user,
            text,
            in_reply_to_status_id,
            retweeted_status,
            quoted_status,
        })
    }

    /// Parse a text and read one timeline entry out of it.
    pub fn deserialize_json(json: &str) -> (r: Result<Status, TwitterDataError>)
        ensures
            r is Ok <==> (spec_parse_json(json@) matches Some(v) && status_wf(v)),
            r matches Ok(s) ==> status_matches(spec_parse_json(json@)->Some_0, s),
    {
        match parse_json_text(json) {
            Some(v) => Status::deserialize_json_value(&v),
            None => Err(TwitterDataError::new("status".to_owned(), String::new())),
        }
    }
}

/// A parsed timeline answer is a well-formed entry list: an array of
/// well-formed entries, or one well-formed entry on its own.
pub open spec fn timeline_wf(doc: Option<JsonValue>) -> bool {
    match doc {
        None => false,
        Some(JsonValue::Array(items)) => forall|i: int|
            0 <= i < items@.len() ==> status_wf(#[trigger] items@[i]),
        Some(v) => status_wf(v),
    }
}

impl Status {
    /// Parse a whole timeline answer: an array yields its entries in order,
    /// any other well-formed document yields a single entry.
    pub fn deserialize_timeline(json: &str) -> (r: Result<Vec<Status>, TwitterDataError>)
        ensures
            r is Ok <==> timeline_wf(spec_parse_json(json@)),
            r matches Ok(list) ==> match spec_parse_json(json@) {
                Some(JsonValue::Array(items)) => list@.len() == items@.len() && (forall|i: int|
                    0 <= i < items@.len() ==> status_matches(#[trigger] items@[i], list@[i])),
                Some(v) => list@.len() == 1 && status_matches(v, list@[0]),
                None => false,
            },
    {
        match parse_json_text(json) {
            Some(JsonValue::Array(items)) => {
                let mut list: Vec<Status> = Vec::new();
                let n = items.len();
                for i in 0..n
                    invariant
                        n == items@.len(),
                        spec_parse_json(json@) == Some(JsonValue::Array(items)),
                        list@.len() == i,
                        forall|a: int|
                            0 <= a < i ==> status_matches(#[trigger] items@[a], list@[a]),
                        forall|a: int| 0 <= a < i ==> status_wf(#[trigger] items@[a]),
                {
                    match Status::deserialize_json_value(&items[i]) {
                        Ok(s) => {
                            list.push(s);
                        },
                        Err(e) => {
                            return Err(e);
                        },
                    }
                }
                Ok(list)
            },
            Some(v) => {
                match Status::deserialize_json_value(&v) {
                    Ok(s) => {
                        let mut list: Vec<Status> = Vec::new();
                        list.push(s);
                        proof {
                            assert(spec_parse_json(json@) == Some(v));
                        }
                        Ok(list)
                    },
                    Err(e) => Err(e),
                }
            },
            None => Err(TwitterDataError::new("timeline".to_owned(), String::new())),
        }
    }
}

} // verus!
