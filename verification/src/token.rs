use crate::error::ClientError;
use crate::json::{
    any_member, bool_member, json_parse, json_text, lemma_member_of_three, lemma_members_model,
    members_model, parse_json, read_bool_member, read_member, read_text_member, text_member,
    write_json, Json, JsonModel,
};
use crate::session::{valid_user_id, Session, SessionView};
use vstd::prelude::*;
use vstd::string::StringExecFns;

verus! {

/// Everything needed to bring a session back without authenticating again: a
/// complete snapshot, taken at one instant.
#[derive(Debug)]
pub struct RestoreToken {
    pub is_guest: bool,
    pub homeurl: String,
    pub session: Session,
}

/// What a `RestoreToken` holds.
pub struct RestoreTokenView {
    pub is_guest: bool,
    pub homeurl: Seq<char>,
    pub session: SessionView,
}

impl View for RestoreToken {
    type V = RestoreTokenView;

    open spec fn view(&self) -> RestoreTokenView {
        RestoreTokenView {
            is_guest: self.is_guest,
            homeurl: self.homeurl@,
            session: self.session@,
        }
    }
}

impl RestoreTokenView {
    /// The token as a JSON object: the guest flag, the homeserver endpoint and
    /// the session, in this order.
    pub open spec fn document(self) -> JsonModel {
        JsonModel::Object(
            seq![
                ("is_guest"@, JsonModel::Bool(self.is_guest)),
                ("homeurl"@, JsonModel::Text(self.homeurl)),
                ("session"@, self.session.document()),
            ],
        )
    }

    /// The token that a JSON document holds, or the message that says why it
    /// holds none: it is no object, a member is missing or of the wrong kind,
    /// or the session is refused. Other members are ignored.
    pub open spec fn read(doc: JsonModel) -> Result<RestoreTokenView, Seq<char>> {
        match bool_member(doc, "is_guest"@) {
            Err(msg) => Err(msg),
            Ok(is_guest) => match text_member(doc, "homeurl"@) {
                Err(msg) => Err(msg),
                Ok(homeurl) => match any_member(doc, "session"@) {
                    Err(msg) => Err(msg),
                    Ok(inner) => match SessionView::read(inner) {
                        Err(msg) => Err(msg),
                        Ok(session) => Ok(RestoreTokenView { is_guest, homeurl, session }),
                    },
                },
            },
        }
    }

    /// The token as text: its document, written as JSON.
    pub open spec fn encoded(self) -> Seq<char> {
        json_text(self.document())
    }

    /// The token that a text holds: the text is parsed as JSON and the
    /// document is read.
    pub open spec fn decoded(text: Seq<char>) -> Result<RestoreTokenView, Seq<char>> {
        match json_parse(text) {
            Err(msg) => Err(msg),
            Ok(doc) => RestoreTokenView::read(doc),
        }
    }

    /// Whether the token's text reads back as the token.
    pub open spec fn reads_back(self) -> bool {
        RestoreTokenView::decoded(self.encoded()) == Ok::<RestoreTokenView, Seq<char>>(self)
    }

    /// The text under which the token is handed out, or the message that
    /// says why it is not: a token is handed out only as a text that reads
    /// back as the token.
    pub open spec fn issued(self) -> Result<Seq<char>, Seq<char>> {
        if self.reads_back() {
            Ok(self.encoded())
        } else {
            Err(unreadable_token())
        }
    }
}

/// The message for a token whose text does not read back as the token.
pub open spec fn unreadable_token() -> Seq<char> {
    "restore token does not read back"@
}

impl RestoreToken {
    /// The token as a JSON object.
    pub fn to_json(&self) -> (doc: Json)
        ensures
            doc@ == self@.document(),
    {
        let mut members: Vec<(String, Json)> = Vec::new();
        members.push((String::from_str("is_guest"), Json::Bool(self.is_guest)));
        members.push((String::from_str("homeurl"), Json::Text(self.homeurl.clone())));
        members.push((String::from_str("session"), self.session.to_json()));
        proof {
            lemma_members_model(members@);
            assert(self@.document()->Object_0 =~= members_model(members@));
        }
        Json::Object(members)
    }

    /// The token that a JSON document holds.
    pub fn from_json(doc: &Json) -> (r: Result<RestoreToken, ClientError>)
        ensures
            match RestoreTokenView::read(doc@) {
                Ok(token) => r matches Ok(found) && found@ == token,
                Err(msg) => r matches Err(e) && e.msg_view() == msg,
            },
    {
        let is_guest = match read_bool_member(doc, "is_guest") {
            Ok(b) => b,
            Err(e) => {
                return Err(e);
            },
        };
        let homeurl = match read_text_member(doc, "homeurl") {
            Ok(text) => text,
            Err(e) => {
                return Err(e);
            },
        };
        let session = match read_member(doc, "session") {
            Ok(inner) => match Session::from_json(inner) {
                Ok(session) => session,
                Err(e) => {
                    return Err(e);
                },
            },
            Err(e) => {
                return Err(e);
            },
        };
        Ok(RestoreToken { is_guest, homeurl, session })
    }

    /// Writes the token as JSON text.
    pub fn encode(&self) -> (text: String)
        ensures
            text@ == self@.encoded(),
    {
        let doc = self.to_json();
        write_json(&doc).unwrap()
    }

    /// Whether the two tokens hold the same flag, endpoint and credentials.
    pub fn same_as(&self, other: &RestoreToken) -> (same: bool)
        ensures
            same == (self@ == other@),
    {
        self.is_guest == other.is_guest && self.homeurl == other.homeurl && self.session.same_as(
            &other.session,
        )
    }

    /// Writes the token, reads the text back, and hands the text out only if
    /// it holds this very token: whoever decodes a text that came from here
    /// gets the guest flag, endpoint and credentials that went in.
    pub fn issue(&self) -> (r: Result<String, ClientError>)
        ensures
            match self@.issued() {
                Ok(text) => r matches Ok(found) && found@ == text,
                Err(msg) => r matches Err(e) && e.msg_view() == msg,
            },
            r matches Ok(found) ==> RestoreTokenView::decoded(found@) == Ok::<
                RestoreTokenView,
                Seq<char>,
            >(self@),
    {
        let text = self.encode();
        match RestoreToken::decode(text.as_str()) {
            Ok(back) => {
                if self.same_as(&back) {
                    Ok(text)
                } else {
                    Err(ClientError::generic("restore token does not read back"))
                }
            },
            Err(_) => Err(ClientError::generic("restore token does not read back")),
        }
    }

    /// Reads a token from JSON text. A text that is no JSON is refused with
    /// the parser's message, a document that holds no token with the message
    /// of `RestoreTokenView::read`.
    pub fn decode(text: &str) -> (r: Result<RestoreToken, ClientError>)
        ensures
            match RestoreTokenView::decoded(text@) {
                Ok(token) => r matches Ok(found) && found@ == token,
                Err(msg) => r matches Err(e) && e.msg_view() == msg,
            },
    {
        match parse_json(text) {
            Ok(doc) => RestoreToken::from_json(&doc),
            Err(msg) => Err(ClientError::Generic { msg }),
        }
    }

    /// Reading back the document of a token gives exactly that token: the
    /// same guest flag, endpoint and credentials. It holds of every token
    /// whose user identifier is a valid one.
    pub proof fn lemma_document_round_trip(token: RestoreTokenView)
        requires
            valid_user_id(token.session.user_id),
        ensures
            RestoreTokenView::read(token.document()) == Ok::<RestoreTokenView, Seq<char>>(token),
    {
        reveal_strlit("is_guest");
        reveal_strlit("homeurl");
        reveal_strlit("session");
        assert("is_guest"@.len() == 8);
        assert("homeurl"@.len() == 7);
        assert("homeurl"@[0] == 'h');
        assert("session"@[0] == 's');
        lemma_member_of_three(
            ("is_guest"@, JsonModel::Bool(token.is_guest)),
            ("homeurl"@, JsonModel::Text(token.homeurl)),
            ("session"@, token.session.document()),
        );
        Session::lemma_document_round_trip(token.session);
    }
}

} // verus!
