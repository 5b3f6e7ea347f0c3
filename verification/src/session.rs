use crate::error::ClientError;
use crate::json::{lemma_members_model, read_text_member, text_member, Json, JsonModel};
use vstd::prelude::*;
use vstd::string::StringExecFns;

verus! {

/// Why a text is no user identifier: the parser's message, or `None` for a
/// text that is one.
pub uninterp spec fn user_id_rejection(text: Seq<char>) -> Option<Seq<char>>;

/// A text that is a user identifier.
pub open spec fn valid_user_id(text: Seq<char>) -> bool {
    user_id_rejection(text) is None
}

/// Calls `ruma::UserId::parse` and drops the identifier, which holds the text
/// unchanged. Trusted: the call fails exactly on the texts for which
/// `user_id_rejection` names a message, and with that message.
#[verifier::external_body]
fn check_user_id(text: &str) -> (r: Result<(), String>)
    ensures
        match r {
            Ok(_) => user_id_rejection(text@) is None,
            Err(msg) => user_id_rejection(text@) == Some(msg@),
        },
{
    ruma::UserId::parse(text).map(|_| ()).map_err(|e| e.to_string())
}

/// Says whether `username` is a user identifier; one that is not is refused
/// with the parser's message.
pub fn check_user_name(username: &str) -> (r: Result<(), ClientError>)
    ensures
        match user_id_rejection(username@) {
            None => r is Ok,
            Some(msg) => r matches Err(e) && e.msg_view() == msg,
        },
{
    match check_user_id(username) {
        Ok(_) => Ok(()),
        Err(msg) => Err(ClientError::Generic { msg }),
    }
}

/// The credentials of an established session. The user identifier is always
/// a valid one.
#[derive(Debug)]
pub struct Session {
    access_token: String,
    user_id: String,
    device_id: String,
}

/// What a `Session` holds.
pub struct SessionView {
    pub access_token: Seq<char>,
    pub user_id: Seq<char>,
    pub device_id: Seq<char>,
}

impl View for Session {
    type V = SessionView;

    closed spec fn view(&self) -> SessionView {
        SessionView {
            access_token: self.access_token@,
            user_id: self.user_id@,
            device_id: self.device_id@,
        }
    }
}

impl Clone for Session {
    fn clone(&self) -> (copy: Session)
        ensures
            copy@ == self@,
    {
        proof {
            use_type_invariant(self);
        }
        Session {
            access_token: self.access_token.clone(),
            user_id: self.user_id.clone(),
            device_id: self.device_id.clone(),
        }
    }
}

impl SessionView {
    /// The session as a JSON object: the three credentials as texts.
    pub open spec fn document(self) -> JsonModel {
        JsonModel::Object(
            seq![
                ("access_token"@, JsonModel::Text(self.access_token)),
                ("user_id"@, JsonModel::Text(self.user_id)),
                ("device_id"@, JsonModel::Text(self.device_id)),
            ],
        )
    }

    /// The session that a JSON document holds, or the message that says why
    /// it holds none: it is no object, a credential is missing or is no text,
    /// or the user identifier is refused. Other members are ignored.
    pub open spec fn read(doc: JsonModel) -> Result<SessionView, Seq<char>> {
        match text_member(doc, "access_token"@) {
            Err(msg) => Err(msg),
            Ok(access_token) => match text_member(doc, "user_id"@) {
                Err(msg) => Err(msg),
                Ok(user_id) => match text_member(doc, "device_id"@) {
                    Err(msg) => Err(msg),
                    Ok(device_id) => match user_id_rejection(user_id) {
                        Some(msg) => Err(msg),
                        None => Ok(SessionView { access_token, user_id, device_id }),
                    },
                },
            },
        }
    }
}

impl Session {
    #[verifier::type_invariant]
    spec fn well_formed(self) -> bool {
        valid_user_id(self.user_id@)
    }

    /// The session as a JSON object.
    pub fn to_json(&self) -> (doc: Json)
        ensures
            doc@ == self@.document(),
    {
        let mut members: Vec<(String, Json)> = Vec::new();
        members.push((String::from_str("access_token"), Json::Text(self.access_token.clone())));
        members.push((String::from_str("user_id"), Json::Text(self.user_id.clone())));
        members.push((String::from_str("device_id"), Json::Text(self.device_id.clone())));
        proof {
            lemma_members_model(members@);
            assert(self@.document()->Object_0 =~= crate::json::members_model(members@));
        }
        Json::Object(members)
    }

    /// The session that a JSON document holds.
    pub fn from_json(doc: &Json) -> (r: Result<Session, ClientError>)
        ensures
            match SessionView::read(doc@) {
                Ok(session) => r matches Ok(found) && found@ == session,
                Err(msg) => r matches Err(e) && e.msg_view() == msg,
            },
    {
        let access_token = match read_text_member(doc, "access_token") {
            Ok(text) => text,
            Err(e) => {
                return Err(e);
            },
        };
        let user_id = match read_text_member(doc, "user_id") {
            Ok(text) => text,
            Err(e) => {
                return Err(e);
            },
        };
        let device_id = match read_text_member(doc, "device_id") {
            Ok(text) => text,
            Err(e) => {
                return Err(e);
            },
        };
        Session::new(access_token, user_id, device_id)
    }

    /// Reading back the document of a session gives that session, provided
    /// its user identifier is a valid one.
    pub proof fn lemma_document_round_trip(session: SessionView)
        requires
            valid_user_id(session.user_id),
        ensures
            SessionView::read(session.document()) == Ok::<SessionView, Seq<char>>(session),
    {
        reveal_strlit("access_token");
        reveal_strlit("user_id");
        reveal_strlit("device_id");
        assert("access_token"@.len() == 12);
        assert("user_id"@.len() == 7);
        assert("device_id"@.len() == 9);
        crate::json::lemma_member_of_three(
            ("access_token"@, JsonModel::Text(session.access_token)),
            ("user_id"@, JsonModel::Text(session.user_id)),
            ("device_id"@, JsonModel::Text(session.device_id)),
        );
    }

    /// The session of `user_id` on `device_id`. A text that is no user
    /// identifier is refused with the parser's message.
    pub fn new(access_token: String, user_id: String, device_id: String) -> (r: Result<
        Session,
        ClientError,
    >)
        ensures
            match user_id_rejection(user_id@) {
                None => r matches Ok(session) && session@ == (SessionView {
                    access_token: access_token@,
                    user_id: user_id@,
                    device_id: device_id@,
                }),
                Some(msg) => r matches Err(e) && e.msg_view() == msg,
            },
    {
        match check_user_id(user_id.as_str()) {
            Ok(_) => Ok(Session { access_token, user_id, device_id }),
            Err(msg) => Err(ClientError::Generic { msg }),
        }
    }

    /// Whether the two sessions hold the same credentials.
    pub fn same_as(&self, other: &Session) -> (same: bool)
        ensures
            same == (self@ == other@),
    {
        let same = self.access_token == other.access_token && self.user_id == other.user_id
            && self.device_id == other.device_id;
        proof {
            if same {
                assert(self@.access_token =~= other@.access_token);
            }
        }
        same
    }

    pub fn access_token(&self) -> (token: String)
        ensures
            token@ == self@.access_token,
    {
        self.access_token.clone()
    }

    pub fn user_id(&self) -> (id: String)
        ensures
            id@ == self@.user_id,
            valid_user_id(id@),
    {
        proof {
            use_type_invariant(self);
        }
        self.user_id.clone()
    }

    pub fn device_id(&self) -> (id: String)
        ensures
            id@ == self@.device_id,
    {
        self.device_id.clone()
    }
}

} // verus!
