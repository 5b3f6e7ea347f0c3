use crate::endpoint::{homeserver, url_parse};
use crate::error::ClientError;
use crate::session::{check_user_name, user_id_rejection, Session, SessionView};
use crate::state::{ClientState, ClientStateBuilder, ClientStateView, LoopCtrl};
use crate::store::{config_for, new_client_config, ClientConfig, ClientConfigView};
use crate::token::{RestoreToken, RestoreTokenView};
use vstd::prelude::*;

verus! {

/// Told once for each completed synchronization cycle.
pub trait ClientDelegate: Sync + Send {
    fn did_receive_sync_update(&self);
}

/// What the server answered to the registration of a guest.
#[derive(Debug)]
pub struct GuestRegistration {
    pub access_token: Option<String>,
    pub user_id: String,
    pub device_id: Option<String>,
}

/// What a call of `start_sync` did.
#[derive(Clone, Copy, Debug, PartialEq, Eq, Structural)]
pub enum SyncStart {
    /// No loop had been started: the caller starts one.
    Started,
    /// A loop was started before: nothing changed, and no second loop is to
    /// be started.
    AlreadyStarted,
}

/// Where the synchronization loop of a client stands.
#[derive(Clone, Copy, Debug, PartialEq, Eq, Structural)]
pub enum SyncPhase {
    /// No loop has been started.
    Idle,
    /// The loop is active and no stop was requested.
    Running,
    /// A stop was requested; the loop ends with the cycle in progress.
    Stopping,
    /// The loop has ended.
    Stopped,
}

/// One authenticated identity: where it keeps its data, where its homeserver
/// is, the session it holds if one is established, the state it shares with
/// its synchronization loop, and how far that loop has come.
#[derive(Debug)]
pub struct Client {
    config: ClientConfig,
    homeserver: String,
    session: Option<Session>,
    state: ClientState,
    sync_started: bool,
    sync_ended: bool,
}

/// What a `Client` holds.
pub struct ClientView {
    pub config: ClientConfigView,
    pub homeserver: Seq<char>,
    pub session: Option<SessionView>,
    pub state: ClientStateView,
    pub sync_started: bool,
    pub sync_ended: bool,
}

/// The state of a client that has just been made.
pub open spec fn fresh_state(is_guest: bool) -> ClientStateView {
    ClientStateView {
        is_guest,
        has_first_synced: false,
        is_syncing: false,
        should_stop_syncing: false,
    }
}

/// The message of a client that holds no session.
pub open spec fn missing_session() -> Seq<char> {
    "Missing session"@
}

/// The message of a client without a user identifier.
pub open spec fn no_user_id() -> Seq<char> {
    "No User ID found"@
}

/// The message of a client without a device identifier.
pub open spec fn no_device_id() -> Seq<char> {
    "No Device ID found"@
}

/// The message for an account without a display name.
pub open spec fn no_display_name() -> Seq<char> {
    "No display name found"@
}

/// The message for an account without an avatar.
pub open spec fn no_avatar_url() -> Seq<char> {
    "No avatar Url given"@
}

/// The message for a registration that came back without an access token.
pub open spec fn no_access_token() -> Seq<char> {
    "no access token given"@
}

/// The message for a registration that came back without a device identifier.
pub open spec fn no_device_given() -> Seq<char> {
    "device id is given by server"@
}

impl View for Client {
    type V = ClientView;

    closed spec fn view(&self) -> ClientView {
        ClientView {
            config: self.config@,
            homeserver: self.homeserver@,
            session: match self.session {
                Some(session) => Some(session@),
                None => None,
            },
            state: self.state@,
            sync_started: self.sync_started,
            sync_ended: self.sync_ended,
        }
    }
}

impl ClientView {
    /// Where the synchronization loop stands.
    pub open spec fn sync_phase(self) -> SyncPhase {
        if !self.sync_started {
            SyncPhase::Idle
        } else if self.sync_ended {
            SyncPhase::Stopped
        } else if self.state.should_stop_syncing {
            SyncPhase::Stopping
        } else {
            SyncPhase::Running
        }
    }

    /// What a start does to this client.
    pub open spec fn start_outcome(self) -> SyncStart {
        if self.sync_started {
            SyncStart::AlreadyStarted
        } else {
            SyncStart::Started
        }
    }

    /// The client after the loop was told `ctrl` at the end of a round that
    /// left the state as `state`.
    pub open spec fn after_round(self, state: ClientStateView, ctrl: LoopCtrl) -> ClientView {
        ClientView { state, sync_ended: self.sync_ended || ctrl == LoopCtrl::Break, ..self }
    }

    /// A client that has just been made: nothing is synced, and no loop is
    /// started.
    pub open spec fn made(
        config: ClientConfigView,
        homeserver: Seq<char>,
        session: SessionView,
        is_guest: bool,
    ) -> ClientView {
        ClientView {
            config,
            homeserver,
            session: Some(session),
            state: fresh_state(is_guest),
            sync_started: false,
            sync_ended: false,
        }
    }

    /// The token that this client would hand out, if it holds a session.
    pub open spec fn token(self) -> Option<RestoreTokenView> {
        match self.session {
            None => None,
            Some(session) => Some(
                RestoreTokenView {
                    is_guest: self.state.is_guest,
                    homeurl: self.homeserver,
                    session,
                },
            ),
        }
    }

    /// The restore token of this client as text, or the message that says why
    /// there is none: no session is established, or the text would not read
    /// back as the token.
    pub open spec fn restore_token(self) -> Result<Seq<char>, Seq<char>> {
        match self.token() {
            None => Err(missing_session()),
            Some(token) => token.issued(),
        }
    }

    /// The client of a guest who registered at `homeurl`, or the message that
    /// says why there is none: the endpoint is no URL, the answer lacks the
    /// access token or the device identifier, or its user identifier is
    /// refused. Its data directory is named after the endpoint as it was
    /// given.
    pub open spec fn guest(
        base_path: Seq<char>,
        homeurl: Seq<char>,
        access_token: Option<Seq<char>>,
        user_id: Seq<char>,
        device_id: Option<Seq<char>>,
    ) -> Result<ClientView, Seq<char>> {
        match url_parse(homeurl) {
            Err(msg) => Err(msg),
            Ok(url) => match access_token {
                None => Err(no_access_token()),
                Some(token) => match device_id {
                    None => Err(no_device_given()),
                    Some(device) => match user_id_rejection(user_id) {
                        Some(msg) => Err(msg),
                        None => Ok(
                            ClientView::made(
                                config_for(base_path, homeurl),
                                url,
                                SessionView { access_token: token, user_id, device_id: device },
                                true,
                            ),
                        ),
                    },
                },
            },
        }
    }

    /// The client that a restore token brings back, or the message that says
    /// why there is none: the text holds no token, or its endpoint is no URL.
    /// Its data directory is named after the user identifier of the token.
    pub open spec fn restored(base_path: Seq<char>, text: Seq<char>) -> Result<
        ClientView,
        Seq<char>,
    > {
        match RestoreTokenView::decoded(text) {
            Err(msg) => Err(msg),
            Ok(token) => ClientView::of_token(base_path, token),
        }
    }

    /// The client that a token stands for, or the parser's message where its
    /// endpoint is no URL.
    pub open spec fn of_token(base_path: Seq<char>, token: RestoreTokenView) -> Result<
        ClientView,
        Seq<char>,
    > {
        match url_parse(token.homeurl) {
            Err(msg) => Err(msg),
            Ok(url) => Ok(
                ClientView::made(
                    config_for(base_path, token.session.user_id),
                    url,
                    token.session,
                    token.is_guest,
                ),
            ),
        }
    }

    /// The client of a user who logged in with a password, or the message
    /// that refuses the user name as an identifier. Its data directory is
    /// named after the user name.
    pub open spec fn logged_in(
        base_path: Seq<char>,
        username: Seq<char>,
        homeserver: Seq<char>,
        access_token: Seq<char>,
        device_id: Seq<char>,
    ) -> Result<ClientView, Seq<char>> {
        match user_id_rejection(username) {
            Some(msg) => Err(msg),
            None => Ok(
                ClientView::made(
                    config_for(base_path, username),
                    homeserver,
                    SessionView { access_token, user_id: username, device_id },
                    false,
                ),
            ),
        }
    }

    /// A token that a client handed out brings that client back: the same
    /// guest flag and the same credentials, at the endpoint that the URL
    /// parser gives for the client's own, with nothing synced yet, whatever
    /// became of the client after the token was made.
    pub proof fn lemma_token_brings_the_client_back(
        self,
        base_path: Seq<char>,
        text: Seq<char>,
    )
        requires
            self.restore_token() == Ok::<Seq<char>, Seq<char>>(text),
        ensures
            self.token() is Some,
            RestoreTokenView::decoded(text) == Ok::<RestoreTokenView, Seq<char>>(
                self.token()->Some_0,
            ),
            ClientView::restored(base_path, text) == ClientView::of_token(
                base_path,
                self.token()->Some_0,
            ),
            ClientView::restored(base_path, text) matches Ok(back) ==> back.session == self.session
                && back.state.is_guest == self.state.is_guest && url_parse(self.homeserver)
                == Ok::<Seq<char>, Seq<char>>(back.homeserver) && !back.state.has_first_synced,
    {
    }
}

impl Client {
    /// A client at `homeserver` with the given configuration, session and
    /// state, whose synchronization loop has not been started.
    pub fn new(
        config: ClientConfig,
        homeserver: String,
        session: Option<Session>,
        state: ClientState,
    ) -> (client: Client)
        ensures
            client@ == (ClientView {
                config: config@,
                homeserver: homeserver@,
                session: match session {
                    Some(s) => Some(s@),
                    None => None,
                },
                state: state@,
                sync_started: false,
                sync_ended: false,
            }),
            client@.sync_phase() == SyncPhase::Idle,
    {
        Client { config, homeserver, session, state, sync_started: false, sync_ended: false }
    }

    /// Where the client keeps its data and how it names itself.
    pub fn config(&self) -> (config: ClientConfig)
        ensures
            config@ == self@.config,
    {
        self.config.clone()
    }

    /// Where the synchronization loop stands.
    pub fn sync_phase(&self) -> (phase: SyncPhase)
        ensures
            phase == self@.sync_phase(),
    {
        if !self.sync_started {
            SyncPhase::Idle
        } else if self.sync_ended {
            SyncPhase::Stopped
        } else if self.state.should_stop_syncing() {
            SyncPhase::Stopping
        } else {
            SyncPhase::Running
        }
    }

    /// Marks the synchronization loop as started. A client whose loop was
    /// started before is left as it is, and the caller is told so: there is
    /// never a second loop on one state.
    pub fn start_sync(&mut self) -> (outcome: SyncStart)
        ensures
            outcome == old(self)@.start_outcome(),
            final(self)@ == (ClientView { sync_started: true, ..old(self)@ }),
    {
        if self.sync_started {
            return SyncStart::AlreadyStarted;
        }
        self.sync_started = true;
        SyncStart::Started
    }

    /// Whether a first synchronization cycle has completed since the client
    /// was made.
    pub fn has_first_synced(&self) -> (b: bool)
        ensures
            b == self@.state.has_first_synced,
    {
        self.state.has_first_synced()
    }

    /// Whether the synchronization loop is active.
    pub fn is_syncing(&self) -> (b: bool)
        ensures
            b == self@.state.is_syncing,
    {
        self.state.is_syncing()
    }

    /// Whether this is a guest account.
    pub fn is_guest(&self) -> (b: bool)
        ensures
            b == self@.state.is_guest,
    {
        self.state.is_guest()
    }

    /// The homeserver endpoint.
    pub fn homeserver(&self) -> (url: String)
        ensures
            url@ == self@.homeserver,
    {
        self.homeserver.clone()
    }

    /// The session, if one is established.
    pub fn session(&self) -> (found: Option<Session>)
        ensures
            match self@.session {
                Some(session) => found matches Some(s) && s@ == session,
                None => found is None,
            },
    {
        match &self.session {
            Some(session) => Some(session.clone()),
            None => None,
        }
    }

    /// Records one completed synchronization cycle and says whether the loop
    /// goes on. The caller tells the delegate first. A recorded first sync
    /// stays recorded, and a loop that is told to break has ended.
    pub fn on_sync_update(&mut self) -> (ctrl: LoopCtrl)
        ensures
            ctrl == old(self)@.state.loop_ctrl(),
            final(self)@ == old(self)@.after_round(old(self)@.state.after_sync_cycle(), ctrl),
            final(self)@.state.has_first_synced,
    {
        let ctrl = self.state.record_sync_cycle();
        if ctrl == LoopCtrl::Break {
            self.sync_ended = true;
        }
        ctrl
    }

    /// Records a synchronization round that failed and says whether the loop
    /// goes on: the round is tried again unless a stop was requested. The
    /// delegate is not told.
    pub fn on_sync_failure(&mut self) -> (ctrl: LoopCtrl)
        ensures
            ctrl == old(self)@.state.loop_ctrl(),
            final(self)@ == old(self)@.after_round(old(self)@.state.after_sync_failure(), ctrl),
            final(self)@.state.has_first_synced == old(self)@.state.has_first_synced,
    {
        let ctrl = self.state.record_sync_failure();
        if ctrl == LoopCtrl::Break {
            self.sync_ended = true;
        }
        ctrl
    }

    /// Asks the synchronization loop to end after the cycle in progress.
    pub fn stop_sync(&mut self)
        ensures
            final(self)@ == (ClientView {
                state: old(self)@.state.after_stop_request(),
                ..old(self)@
            }),
    {
        self.state.request_stop();
    }

    /// The token that brings this client back later: its guest flag, endpoint
    /// and session as they are now. A client that holds no session has none.
    /// The text is handed out only after it was read back as this very token.
    pub fn restore_token(&self) -> (r: Result<String, ClientError>)
        ensures
            match self@.restore_token() {
                Ok(text) => r matches Ok(found) && found@ == text,
                Err(msg) => r matches Err(e) && e.msg_view() == msg,
            },
    {
        match &self.session {
            None => Err(ClientError::generic("Missing session")),
            Some(session) => {
                let token = RestoreToken {
                    is_guest: self.state.is_guest(),
                    homeurl: self.homeserver.clone(),
                    session: session.clone(),
                };
                token.issue()
            },
        }
    }

    /// The user identifier of the session; a client that holds no session has
    /// none.
    pub fn user_id(&self) -> (r: Result<String, ClientError>)
        ensures
            match self@.session {
                Some(session) => r matches Ok(id) && id@ == session.user_id,
                None => r matches Err(e) && e.msg_view() == no_user_id(),
            },
    {
        match &self.session {
            Some(session) => Ok(session.user_id()),
            None => Err(ClientError::generic("No User ID found")),
        }
    }

    /// The device identifier of the session; a client that holds no session
    /// has none.
    pub fn device_id(&self) -> (r: Result<String, ClientError>)
        ensures
            match self@.session {
                Some(session) => r matches Ok(id) && id@ == session.device_id,
                None => r matches Err(e) && e.msg_view() == no_device_id(),
            },
    {
        match &self.session {
            Some(session) => Ok(session.device_id()),
            None => Err(ClientError::generic("No Device ID found")),
        }
    }

    /// The display name that the server gave for the account; an account
    /// without one is a failure.
    pub fn display_name(found: Option<String>) -> (r: Result<String, ClientError>)
        ensures
            match found {
                Some(name) => r matches Ok(text) && text@ == name@,
                None => r matches Err(e) && e.msg_view() == no_display_name(),
            },
    {
        match found {
            Some(name) => Ok(name),
            None => Err(ClientError::generic("No display name found")),
        }
    }

    /// The content reference under which the account's avatar is fetched; an
    /// account without an avatar is a failure.
    pub fn avatar(url: Option<String>) -> (r: Result<String, ClientError>)
        ensures
            match url {
                Some(uri) => r matches Ok(text) && text@ == uri@,
                None => r matches Err(e) && e.msg_view() == no_avatar_url(),
            },
    {
        match url {
            Some(uri) => Ok(uri),
            None => Err(ClientError::generic("No avatar Url given")),
        }
    }
}

/// The client of a guest who has just registered at `homeurl`, with its data
/// under `base_path`.
pub fn guest_client(base_path: String, homeurl: &str, registration: GuestRegistration) -> (r:
    Result<Client, ClientError>)
    ensures
        match ClientView::guest(
            base_path@,
            homeurl@,
            match registration.access_token {
                Some(token) => Some(token@),
                None => None,
            },
            registration.user_id@,
            match registration.device_id {
                Some(device) => Some(device@),
                None => None,
            },
        ) {
            Ok(client) => r matches Ok(found) && found@ == client,
            Err(msg) => r matches Err(e) && e.msg_view() == msg,
        },
{
    let url = match homeserver(homeurl) {
        Ok(url) => url,
        Err(e) => {
            return Err(e);
        },
    };
    let config = new_client_config(base_path, homeurl);
    let access_token = match registration.access_token {
        Some(token) => token,
        None => {
            return Err(ClientError::generic("no access token given"));
        },
    };
    let device_id = match registration.device_id {
        Some(device) => device,
        None => {
            return Err(ClientError::generic("device id is given by server"));
        },
    };
    let session = match Session::new(access_token, registration.user_id, device_id) {
        Ok(session) => session,
        Err(e) => {
            return Err(e);
        },
    };
    let state = ClientStateBuilder::default().is_guest(true).build();
    Ok(Client::new(config, url, Some(session), state))
}

/// The client that a restore token brings back, with its data under
/// `base_path`.
pub fn login_with_token(base_path: String, restore_token: &str) -> (r: Result<Client, ClientError>)
    ensures
        match ClientView::restored(base_path@, restore_token@) {
            Ok(client) => r matches Ok(found) && found@ == client,
            Err(msg) => r matches Err(e) && e.msg_view() == msg,
        },
{
    let token = match RestoreToken::decode(restore_token) {
        Ok(token) => token,
        Err(e) => {
            return Err(e);
        },
    };
    let url = match homeserver(token.homeurl.as_str()) {
        Ok(url) => url,
        Err(e) => {
            return Err(e);
        },
    };
    let user_id = token.session.user_id();
    let config = new_client_config(base_path, user_id.as_str());
    let state = ClientStateBuilder::default().is_guest(token.is_guest).build();
    Ok(Client::new(config, url, Some(token.session), state))
}

/// The client of the user `username`, who has just logged in with a password
/// at `homeserver` and was given `access_token` for `device_id`, with its
/// data under `base_path`. The user name is looked at before anything else.
pub fn login_new_client(
    base_path: String,
    username: String,
    homeserver: String,
    access_token: String,
    device_id: String,
) -> (r: Result<Client, ClientError>)
    ensures
        match ClientView::logged_in(
            base_path@,
            username@,
            homeserver@,
            access_token@,
            device_id@,
        ) {
            Ok(client) => r matches Ok(found) && found@ == client,
            Err(msg) => r matches Err(e) && e.msg_view() == msg,
        },
{
    match check_user_name(username.as_str()) {
        Ok(_) => {},
        Err(e) => {
            return Err(e);
        },
    }
    let config = new_client_config(base_path, username.as_str());
    let session = match Session::new(access_token, username, device_id) {
        Ok(session) => session,
        Err(e) => {
            return Err(e);
        },
    };
    let state = ClientStateBuilder::default().is_guest(false).build();
    Ok(Client::new(config, homeserver, Some(session), state))
}

} // verus!
