use vstd::prelude::*;
use vstd::string::StringExecFns;

verus! {

/// The file-system friendly form of a label.
pub uninterp spec fn sanitized(label: Seq<char>) -> Seq<char>;

/// Calls `sanitize_filename_reader_friendly::sanitize`. Trusted: the result
/// is the text that `sanitized` names for this label.
#[verifier::external_body]
fn sanitize(label: &str) -> (r: String)
    ensures
        r@ == sanitized(label@),
{
    sanitize_filename_reader_friendly::sanitize(label)
}

/// Where a client keeps its local data and how it names itself to the server.
/// The data directory is `store_dir` directly under `base_path`.
#[derive(Debug)]
pub struct ClientConfig {
    pub base_path: String,
    pub store_dir: String,
    pub user_agent: String,
}

/// What a `ClientConfig` holds.
pub struct ClientConfigView {
    pub base_path: Seq<char>,
    pub store_dir: Seq<char>,
    pub user_agent: Seq<char>,
}

impl View for ClientConfig {
    type V = ClientConfigView;

    open spec fn view(&self) -> ClientConfigView {
        ClientConfigView {
            base_path: self.base_path@,
            store_dir: self.store_dir@,
            user_agent: self.user_agent@,
        }
    }
}

impl Clone for ClientConfig {
    fn clone(&self) -> (copy: ClientConfig)
        ensures
            copy@ == self@,
    {
        ClientConfig {
            base_path: self.base_path.clone(),
            store_dir: self.store_dir.clone(),
            user_agent: self.user_agent.clone(),
        }
    }
}

/// The name under which every client of this bridge announces itself.
pub open spec fn user_agent() -> Seq<char> {
    "rust-sdk-ios"@
}

/// The configuration of a client for the identity `home` under `base_path`:
/// the data directory is named by the sanitized identity.
pub open spec fn config_for(base_path: Seq<char>, home: Seq<char>) -> ClientConfigView {
    ClientConfigView { base_path, store_dir: sanitized(home), user_agent: user_agent() }
}

/// The configuration of a client for the identity `home`: its data directory
/// is named by the sanitized identity, under `base_path`.
pub fn new_client_config(base_path: String, home: &str) -> (config: ClientConfig)
    ensures
        config@ == config_for(base_path@, home@),
{
    ClientConfig {
        base_path,
        store_dir: sanitize(home),
        user_agent: String::from_str("rust-sdk-ios"),
    }
}

} // verus!
