//! The changes that the settings window makes to the shared state, and
//! the form in which the app password is kept on disk.

use crate::bitbucket::client::BitbucketError;
use crate::config::{
    AppState, AppStateView, Credentials, CredentialsView, MonitoredPipeline,
    MonitoredPipelineView, OverallStatus, MIN_POLLING_INTERVAL_SECONDS,
};
use crate::outside::{
    base64_decode, base64_decoded, base64_encode, base64_text, string_from_utf8,
};
use crate::text::{is_prefix, trim, trimmed};
use vstd::prelude::*;
use vstd::string::*;
use vstd::utf8::*;

verus! {

impl AppStateView {
    /// The state once `username` is the configured account.
    pub open spec fn with_username(self, username: Seq<char>) -> AppStateView {
        AppStateView {
            credentials: Some(CredentialsView { username }),
            monitored_pipelines: self.monitored_pipelines,
            polling_interval_seconds: self.polling_interval_seconds,
            last_status: self.last_status,
        }
    }

    /// The state once `pipelines` are the monitored ones.
    pub open spec fn with_pipelines(self, pipelines: Seq<MonitoredPipelineView>) -> AppStateView {
        AppStateView {
            credentials: self.credentials,
            monitored_pipelines: pipelines,
            polling_interval_seconds: self.polling_interval_seconds,
            last_status: self.last_status,
        }
    }

    /// The state once it polls every `seconds`.
    pub open spec fn with_interval(self, seconds: u64) -> AppStateView {
        AppStateView {
            credentials: self.credentials,
            monitored_pipelines: self.monitored_pipelines,
            polling_interval_seconds: seconds,
            last_status: self.last_status,
        }
    }
}

/// Stores `username` as the configured account if the credentials were
/// found valid. Invalid credentials and a failed validation are told
/// apart by their message, and neither changes the state.
pub fn save_credentials(
    state: &mut AppState,
    username: String,
    validation: Result<bool, BitbucketError>,
) -> (r: Result<(), String>)
    ensures
        match validation {
            Ok(true) => r is Ok && final(state)@ == old(state)@.with_username(username@),
            Ok(false) => r is Err && r->Err_0@ == "Invalid credentials"@ && final(state)@ == old(
                state,
            )@,
            Err(error) => r is Err && r->Err_0@ == error@.message() && final(state)@ == old(
                state,
            )@,
        },
{
    match validation {
        Ok(true) => {
            state.credentials = Some(Credentials { username });
            Ok(())
        },
        Ok(false) => Err(String::from_str("Invalid credentials")),
        Err(error) => Err(error.message()),
    }
}

/// The name of the configured account.
pub fn get_credentials(state: &AppState) -> (r: Option<String>)
    ensures
        r.deep_view() == match state@.credentials {
            Some(c) => Some(c.username),
            None => None,
        },
{
    match &state.credentials {
        Some(c) => Some(c.username.clone()),
        None => None,
    }
}

/// Replaces the monitored pipelines by `pipelines`.
pub fn save_monitored_pipelines(state: &mut AppState, pipelines: Vec<MonitoredPipeline>)
    ensures
        final(state)@ == old(state)@.with_pipelines(pipelines.deep_view()),
{
    state.monitored_pipelines = pipelines;
}

/// The monitored pipelines.
pub fn get_monitored_pipelines(state: &AppState) -> (r: Vec<MonitoredPipeline>)
    ensures
        r.deep_view() == state@.monitored_pipelines,
{
    let r = state.monitored_pipelines.clone();
    assert(r.deep_view() =~= state.monitored_pipelines.deep_view());
    r
}

/// The snapshot of the last cycle, if one has ended.
pub fn get_pipeline_statuses(state: &AppState) -> (r: Option<OverallStatus>)
    ensures
        r.deep_view() == state@.last_status,
{
    match &state.last_status {
        Some(status) => Some(status.clone()),
        None => None,
    }
}

/// Sets the polling interval. An interval below the floor is refused and
/// changes nothing.
pub fn set_polling_interval(state: &mut AppState, seconds: u64) -> (r: Result<(), String>)
    ensures
        seconds >= MIN_POLLING_INTERVAL_SECONDS ==> r is Ok && final(state)@ == old(
            state,
        )@.with_interval(seconds),
        seconds < MIN_POLLING_INTERVAL_SECONDS ==> r is Err && r->Err_0@
            == "Polling interval must be at least 30 seconds"@ && final(state)@ == old(state)@,
{
    if seconds < MIN_POLLING_INTERVAL_SECONDS {
        return Err(String::from_str("Polling interval must be at least 30 seconds"));
    }
    state.polling_interval_seconds = seconds;
    Ok(())
}

/// The polling interval, in seconds.
pub fn get_polling_interval(state: &AppState) -> (r: u64)
    ensures
        r == state.polling_interval_seconds,
{
    state.polling_interval_seconds
}

/// The form in which an app password is written to disk: the base64 text
/// of its UTF-8 bytes.
pub fn encode_password(password: &str) -> (r: String)
    ensures
        r@ == base64_text(encode_utf8(password@)),
{
    base64_encode(password.as_bytes())
}

/// The password that decoded bytes spell, if they are valid UTF-8.
pub fn password_from_bytes(bytes: Vec<u8>) -> (r: Result<String, String>)
    ensures
        match r {
            Ok(password) => valid_utf8(bytes@) && password@ == decode_utf8(bytes@),
            Err(message) => !valid_utf8(bytes@) && is_prefix(
                "Invalid credential data: "@,
                message@,
            ),
        },
{
    match string_from_utf8(bytes) {
        Ok(password) => {
            proof {
                encode_utf8_decode_utf8(password@);
            }
            Ok(password)
        },
        Err(error) => {
            let mut message = String::from_str("Invalid credential data: ");
            let ghost head = message@;
            message.append(error.to_string().as_str());
            assert(message@.subrange(0, head.len() as int) =~= head);
            Err(message)
        },
    }
}

/// The bytes that a stored password decodes to, before they are read as
/// text: the base64 decoding of the stored text without the white space
/// around it.
pub open spec fn stored_bytes(stored: Seq<char>) -> Option<Seq<u8>> {
    base64_decoded(encode_utf8(trimmed(stored)))
}

/// Reads an app password back from the form in which it is kept on disk.
/// White space around the stored text is ignored.
pub fn decode_password(stored: &str) -> (r: Result<String, String>)
    ensures
        match r {
            Ok(password) => stored_bytes(stored@) matches Some(bytes) && valid_utf8(bytes)
                && password@ == decode_utf8(bytes),
            Err(message) => match stored_bytes(stored@) {
                Some(bytes) => !valid_utf8(bytes) && is_prefix(
                    "Invalid credential data: "@,
                    message@,
                ),
                None => is_prefix("Failed to decode credentials: "@, message@),
            },
        },
{
    match base64_decode(trim(stored).as_bytes()) {
        Ok(bytes) => password_from_bytes(bytes),
        Err(error) => {
            let mut message = String::from_str("Failed to decode credentials: ");
            let ghost head = message@;
            message.append(error.to_string().as_str());
            assert(message@.subrange(0, head.len() as int) =~= head);
            Err(message)
        },
    }
}

} // verus!
