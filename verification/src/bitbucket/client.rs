//! Planning requests to the Bitbucket Cloud API and interpreting what comes
//! back. Sending a request is the caller's work: this module says where it
//! goes, how it authenticates and what a response means.

use crate::bitbucket::types::{Pipeline, PipelineView, Workspace};
use crate::outside::{base64_encode, base64_text};
use crate::text::{decimal, decimal_digits, str_eq};
use vstd::prelude::*;
use vstd::string::*;
use vstd::utf8::*;

verus! {

/// The root of every API address.
pub const BITBUCKET_API_BASE: &'static str = "https://api.bitbucket.org/2.0";

/// Seconds after which an unanswered request is given up.
pub const REQUEST_TIMEOUT_SECONDS: u64 = 30;

/// How many of the most recent pipelines are searched for the latest one.
pub const LATEST_PIPELINE_WINDOW: u32 = 20;

/// The failures of an API call.
#[derive(Debug, PartialEq, Eq)]
pub enum BitbucketError {
    /// The request did not complete or its body could not be read; holds
    /// the transport's description.
    Http(String),
    /// The server answered 401.
    AuthenticationFailed,
    /// The server answered 429.
    RateLimited,
    /// The server answered 404; holds the address that was asked for.
    NotFound(String),
    /// Any other answer but 200; holds the status and the body.
    ApiError(u16, String),
}

pub enum BitbucketErrorView {
    Http(Seq<char>),
    AuthenticationFailed,
    RateLimited,
    NotFound(Seq<char>),
    ApiError(u16, Seq<char>),
}

impl DeepView for BitbucketError {
    type V = BitbucketErrorView;

    open spec fn deep_view(&self) -> BitbucketErrorView {
        match self {
            BitbucketError::Http(cause) => BitbucketErrorView::Http(cause@),
            BitbucketError::AuthenticationFailed => BitbucketErrorView::AuthenticationFailed,
            BitbucketError::RateLimited => BitbucketErrorView::RateLimited,
            BitbucketError::NotFound(resource) => BitbucketErrorView::NotFound(resource@),
            BitbucketError::ApiError(status, body) => BitbucketErrorView::ApiError(*status, body@),
        }
    }
}

impl View for BitbucketError {
    type V = BitbucketErrorView;

    open spec fn view(&self) -> BitbucketErrorView {
        self.deep_view()
    }
}

impl Clone for BitbucketError {
    fn clone(&self) -> (r: Self)
        ensures
            r == *self,
    {
        match self {
            BitbucketError::Http(cause) => BitbucketError::Http(cause.clone()),
            BitbucketError::AuthenticationFailed => BitbucketError::AuthenticationFailed,
            BitbucketError::RateLimited => BitbucketError::RateLimited,
            BitbucketError::NotFound(resource) => BitbucketError::NotFound(resource.clone()),
            BitbucketError::ApiError(status, body) => BitbucketError::ApiError(
                *status,
                body.clone(),
            ),
        }
    }
}

impl BitbucketErrorView {
    /// The sentence shown to the user for this failure.
    pub open spec fn message(self) -> Seq<char> {
        match self {
            BitbucketErrorView::Http(cause) => "HTTP error: "@ + cause,
            BitbucketErrorView::AuthenticationFailed => {
                "Authentication failed - check username and app password"@
            },
            BitbucketErrorView::RateLimited => "Rate limited - please wait before retrying"@,
            BitbucketErrorView::NotFound(resource) => "Resource not found: "@ + resource,
            BitbucketErrorView::ApiError(status, body) => "API error: Status "@ + decimal_digits(
                status as nat,
            ) + ": "@ + body,
        }
    }
}

impl BitbucketError {
    /// The sentence shown to the user for this failure.
    pub fn message(&self) -> (r: String)
        ensures
            r@ == self@.message(),
    {
        match self {
            BitbucketError::Http(cause) => {
                let mut s = String::from_str("HTTP error: ");
                s.append(cause.as_str());
                s
            },
            BitbucketError::AuthenticationFailed => String::from_str(
                "Authentication failed - check username and app password",
            ),
            BitbucketError::RateLimited => String::from_str(
                "Rate limited - please wait before retrying",
            ),
            BitbucketError::NotFound(resource) => {
                let mut s = String::from_str("Resource not found: ");
                s.append(resource.as_str());
                s
            },
            BitbucketError::ApiError(status, body) => {
                let mut s = String::from_str("API error: Status ");
                s.append(decimal(*status as u64).as_str());
                s.append(": ");
                s.append(body.as_str());
                s
            },
        }
    }
}

/// The text that an account and its app password are encoded from:
/// the two joined by a colon, as UTF-8.
pub open spec fn basic_credentials(username: Seq<char>, app_password: Seq<char>) -> Seq<u8> {
    encode_utf8(username + ":"@ + app_password)
}

/// The value of the `Authorization` header for encoded credentials.
pub open spec fn basic_header(encoded: Seq<char>) -> Seq<char> {
    "Basic "@ + encoded
}

/// The authentication that every request carries.
#[derive(Debug)]
pub struct BitbucketClient {
    auth_header: String,
}

impl BitbucketClient {
    /// The value of the `Authorization` header that this client sends.
    pub closed spec fn header(&self) -> Seq<char> {
        self.auth_header@
    }

    /// A client that authenticates as `username` with `app_password`. The
    /// header is derived here, once.
    pub fn new(username: &str, app_password: &str) -> (r: Self)
        ensures
            r.header() == basic_header(base64_text(basic_credentials(username@, app_password@))),
    {
        let mut credentials = String::from_str(username);
        credentials.append(":");
        credentials.append(app_password);
        let encoded = base64_encode(credentials.as_str().as_bytes());
        Self::with_encoded_credentials(encoded.as_str())
    }

    /// A client whose credentials are already base64-encoded.
    pub fn with_encoded_credentials(encoded: &str) -> (r: Self)
        ensures
            r.header() == basic_header(encoded@),
    {
        let mut auth_header = String::from_str("Basic ");
        auth_header.append(encoded);
        BitbucketClient { auth_header }
    }

    /// The value of the `Authorization` header that this client sends.
    pub fn auth_header(&self) -> (r: &str)
        ensures
            r@ == self.header(),
    {
        self.auth_header.as_str()
    }
}

/// The address that lists the user's workspaces.
pub fn workspaces_url() -> (r: String)
    ensures
        r@ == BITBUCKET_API_BASE@ + "/workspaces?pagelen=100"@,
{
    let mut url = String::from_str(BITBUCKET_API_BASE);
    url.append("/workspaces?pagelen=100");
    url
}

/// The address that lists the projects of `workspace`.
pub fn projects_url(workspace: &str) -> (r: String)
    ensures
        r@ == BITBUCKET_API_BASE@ + "/workspaces/"@ + workspace@ + "/projects?pagelen=100"@,
{
    let mut url = String::from_str(BITBUCKET_API_BASE);
    url.append("/workspaces/");
    url.append(workspace);
    url.append("/projects?pagelen=100");
    url
}

/// The address that lists the repositories of `workspace`, most recently
/// updated first.
pub fn repositories_url(workspace: &str) -> (r: String)
    ensures
        r@ == BITBUCKET_API_BASE@ + "/repositories/"@ + workspace@
            + "?pagelen=100&sort=-updated_on"@,
{
    let mut url = String::from_str(BITBUCKET_API_BASE);
    url.append("/repositories/");
    url.append(workspace);
    url.append("?pagelen=100&sort=-updated_on");
    url
}

/// The address that lists the repositories of one project of `workspace`.
pub fn repositories_by_project_url(workspace: &str, project_key: &str) -> (r: String)
    ensures
        r@ == BITBUCKET_API_BASE@ + "/repositories/"@ + workspace@
            + "?pagelen=100&sort=-updated_on&q=project.key=\""@ + project_key@ + "\""@,
{
    let mut url = String::from_str(BITBUCKET_API_BASE);
    url.append("/repositories/");
    url.append(workspace);
    url.append("?pagelen=100&sort=-updated_on&q=project.key=\"");
    url.append(project_key);
    url.append("\"");
    url
}

/// The address that lists the `limit` most recent pipelines of a
/// repository, newest first.
pub fn pipelines_url(workspace: &str, repo_slug: &str, limit: u32) -> (r: String)
    ensures
        r@ == BITBUCKET_API_BASE@ + "/repositories/"@ + workspace@ + "/"@ + repo_slug@
            + "/pipelines/?sort=-created_on&pagelen="@ + decimal_digits(limit as nat),
{
    let mut url = String::from_str(BITBUCKET_API_BASE);
    url.append("/repositories/");
    url.append(workspace);
    url.append("/");
    url.append(repo_slug);
    url.append("/pipelines/?sort=-created_on&pagelen=");
    url.append(decimal(limit as u64).as_str());
    url
}

/// The address that lists the steps of one pipeline.
pub fn pipeline_steps_url(workspace: &str, repo_slug: &str, pipeline_uuid: &str) -> (r: String)
    ensures
        r@ == BITBUCKET_API_BASE@ + "/repositories/"@ + workspace@ + "/"@ + repo_slug@
            + "/pipelines/"@ + pipeline_uuid@ + "/steps/"@,
{
    let mut url = String::from_str(BITBUCKET_API_BASE);
    url.append("/repositories/");
    url.append(workspace);
    url.append("/");
    url.append(repo_slug);
    url.append("/pipelines/");
    url.append(pipeline_uuid);
    url.append("/steps/");
    url
}

/// What the status of a response asks of the caller.
#[derive(Debug, PartialEq, Eq)]
pub enum StatusVerdict {
    /// The call succeeded: decode the body.
    Decode,
    /// The call failed, and the status alone says how.
    Fail(BitbucketError),
    /// The call failed: read the body and report both with `api_error`.
    ReadBody,
}

pub enum StatusVerdictView {
    Decode,
    Fail(BitbucketErrorView),
    ReadBody,
}

impl DeepView for StatusVerdict {
    type V = StatusVerdictView;

    open spec fn deep_view(&self) -> StatusVerdictView {
        match self {
            StatusVerdict::Decode => StatusVerdictView::Decode,
            StatusVerdict::Fail(e) => StatusVerdictView::Fail(e@),
            StatusVerdict::ReadBody => StatusVerdictView::ReadBody,
        }
    }
}

impl View for StatusVerdict {
    type V = StatusVerdictView;

    open spec fn view(&self) -> StatusVerdictView {
        self.deep_view()
    }
}

/// The verdict on a response with `status` to a request for `url`.
pub open spec fn status_verdict(status: u16, url: Seq<char>) -> StatusVerdictView {
    if status == 200 {
        StatusVerdictView::Decode
    } else if status == 401 {
        StatusVerdictView::Fail(BitbucketErrorView::AuthenticationFailed)
    } else if status == 429 {
        StatusVerdictView::Fail(BitbucketErrorView::RateLimited)
    } else if status == 404 {
        StatusVerdictView::Fail(BitbucketErrorView::NotFound(url))
    } else {
        StatusVerdictView::ReadBody
    }
}

/// Maps the status of a response to what the caller does next.
pub fn check_status(status: u16, url: &str) -> (r: StatusVerdict)
    ensures
        r@ == status_verdict(status, url@),
{
    if status == 200 {
        StatusVerdict::Decode
    } else if status == 401 {
        StatusVerdict::Fail(BitbucketError::AuthenticationFailed)
    } else if status == 429 {
        StatusVerdict::Fail(BitbucketError::RateLimited)
    } else if status == 404 {
        StatusVerdict::Fail(BitbucketError::NotFound(String::from_str(url)))
    } else {
        StatusVerdict::ReadBody
    }
}

/// The failure reported for a response whose status has no meaning of its
/// own.
pub fn api_error(status: u16, body: String) -> (r: BitbucketError)
    ensures
        r == BitbucketError::ApiError(status, body),
{
    BitbucketError::ApiError(status, body)
}

/// The pipeline ran against the branch or tag named `branch`.
pub open spec fn on_branch(pipeline: PipelineView, branch: Seq<char>) -> bool {
    pipeline.target.ref_name == Some(branch)
}

/// Picks the latest pipeline out of a listing that is sorted newest first:
/// the first one on `branch` where a branch is given, else the first one.
pub fn select_latest(pipelines: Vec<Pipeline>, branch: Option<&str>) -> (r: Option<Pipeline>)
    ensures
        match branch {
            None => r == if pipelines.len() > 0 {
                Some(pipelines@[0])
            } else {
                None
            },
            Some(b) => match r {
                Some(p) => exists|i: int|
                    {
                        &&& 0 <= i < pipelines.len()
                        &&& p == #[trigger] pipelines@[i]
                        &&& on_branch(p@, b@)
                        &&& forall|j: int| 0 <= j < i ==> !on_branch((#[trigger] pipelines@[j])@, b@)
                    },
                None => forall|i: int|
                    0 <= i < pipelines.len() ==> !on_branch((#[trigger] pipelines@[i])@, b@),
            },
        },
{
    let mut listing = pipelines;
    match branch {
        None => {
            if listing.len() > 0 {
                Some(listing.remove(0))
            } else {
                None
            }
        },
        Some(b) => {
            let mut i: usize = 0;
            while i < listing.len()
                invariant
                    i <= listing.len(),
                    listing@ == pipelines@,
                    branch == Some(b),
                    forall|j: int| 0 <= j < i ==> !on_branch((#[trigger] pipelines@[j])@, b@),
                decreases listing.len() - i,
            {
                let found = match &listing[i].target.ref_name {
                    Some(name) => str_eq(name.as_str(), b),
                    None => false,
                };
                if found {
                    let p = listing.remove(i);
                    assert(p == pipelines@[i as int]);
                    return Some(p);
                }
                i += 1;
            }
            None
        },
    }
}

/// Turns the outcome of a benign authenticated call into a verdict on the
/// credentials: valid if the call succeeded, invalid if authentication
/// failed, and any other failure is passed on as it is.
pub fn credentials_verdict(
    outcome: Result<Vec<Workspace>, BitbucketError>,
) -> (r: Result<bool, BitbucketError>)
    ensures
        match outcome {
            Ok(_) => r == Ok::<bool, BitbucketError>(true),
            Err(BitbucketError::AuthenticationFailed) => r == Ok::<bool, BitbucketError>(false),
            Err(e) => r == Err::<bool, BitbucketError>(e),
        },
{
    match outcome {
        Ok(_) => Ok(true),
        Err(BitbucketError::AuthenticationFailed) => Ok(false),
        Err(e) => Err(e),
    }
}

} // verus!
