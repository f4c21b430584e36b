//! The podcast server API layer.
//!
//! Each call the client makes is split in two verified halves around the one
//! unverifiable step, the network transfer itself. `prepare_*` builds the
//! request — method, URL, and the mandatory API key — and refuses to build
//! one at all when the key is absent, so such a call is classified as
//! [`RequestError::MissingCredential`] before anything reaches the wire.
//! `classify_*` takes what came back, as plain values, and produces either
//! the typed payload or the matching failure kind. The surrounding
//! application only transfers bytes and decodes JSON; every decision stands
//! here.

use vstd::prelude::*;
use std::collections::HashMap;
use crate::digits::int_dec;
use crate::digits::i32_dec;

verus! {

/// The classified failures of an API call.
#[derive(Debug, Clone, PartialEq)]
pub enum RequestError {
    /// The API key (or server address) is absent; the request was never sent.
    MissingCredential,
    /// A transport-level error kept the request from completing.
    NetworkFailure(String),
    /// The server answered with a non-success status; carries its status text.
    ServerRejected(String),
    /// The server answered with success but the body did not match the
    /// expected shape.
    DecodeFailure,
}

impl RequestError {
    /// The banner text for a failure.
    pub open spec fn spec_message(self) -> Seq<char> {
        match self {
            RequestError::MissingCredential => "API key is missing"@,
            RequestError::NetworkFailure(m) => "Network error: "@ + m@,
            RequestError::ServerRejected(t) => "Server error: "@ + t@,
            RequestError::DecodeFailure => "Failed to deserialize response"@,
        }
    }

    /// Renders the failure as its banner text: a fixed phrase, carrying the
    /// transport message or the server's status text where there is one.
    pub fn message(&self) -> (m: String)
        ensures
            m@ == self.spec_message(),
    {
        match self {
            RequestError::MissingCredential => String::from_str("API key is missing"),
            RequestError::NetworkFailure(detail) => {
                let mut m = String::from_str("Network error: ");
                m.append(detail.as_str());
                m
            },
            RequestError::ServerRejected(status_text) => {
                let mut m = String::from_str("Server error: ");
                m.append(status_text.as_str());
                m
            },
            RequestError::DecodeFailure => String::from_str("Failed to deserialize response"),
        }
    }
}

/// Answer to the user-verification call.
#[derive(Debug, PartialEq, Clone)]
pub struct VerifyResponse {
    pub status: String,
    pub retrieved_id: i32,
}

/// One episode as the server lists it.
#[derive(Debug, PartialEq, Clone)]
#[allow(non_snake_case)]
pub struct Episode {
    pub PodcastName: String,
    pub EpisodeTitle: String,
    pub EpisodePubDate: String,
    pub EpisodeDescription: String,
    pub EpisodeArtwork: String,
    pub EpisodeURL: String,
    pub EpisodeDuration: i32,
    pub ListenDuration: Option<String>,
    pub EpisodeID: i32,
}

/// Answer to the recent-episodes call; an absent list stands for no episodes.
#[derive(Debug, PartialEq, Clone)]
pub struct RecentEps {
    pub episodes: Option<Vec<Episode>>,
}

/// A podcast to be added, as the views collected it.
#[derive(Debug, Clone)]
pub struct PodcastValues {
    pub pod_title: String,
    pub pod_artwork: String,
    pub pod_author: String,
    pub categories: HashMap<String, String>,
    pub pod_description: String,
    pub pod_episode_count: i32,
    pub pod_feed_url: String,
    pub pod_website: String,
    pub pod_explicit: bool,
    pub user_id: i32,
}

/// Answer to the add- and remove-podcast calls.
#[derive(Debug, PartialEq, Clone)]
pub struct PodcastStatusResponse {
    pub success: bool,
}

/// Names the podcast to remove for a user.
#[derive(Debug, PartialEq, Clone)]
pub struct RemovePodcastValues {
    pub podcast_id: i32,
    pub user_id: i32,
}

/// Answer to the podcast-list call; an absent list stands for no podcasts.
#[derive(Debug, PartialEq, Clone)]
pub struct PodcastResponse {
    pub pods: Option<Vec<Podcast>>,
}

/// One subscribed podcast as the server lists it.
#[derive(Debug, PartialEq, Clone)]
#[allow(non_snake_case)]
pub struct Podcast {
    pub PodcastID: i32,
    pub PodcastName: String,
    pub ArtworkURL: String,
    pub Description: String,
    pub EpisodeCount: i32,
    pub WebsiteURL: String,
    pub FeedURL: String,
    pub Author: String,
    pub Categories: String,
    pub Explicit: bool,
}

/// Names the episode to queue for a user.
#[derive(Debug, PartialEq, Clone)]
pub struct QueuePodcastRequest {
    pub episode_title: String,
    pub ep_url: String,
    pub user_id: i32,
}

/// Answer shape holding the queued episodes directly.
#[derive(Debug, PartialEq, Clone)]
pub struct QueuedEpisodesResponse {
    pub episodes: Vec<QueuedEpisode>,
}

/// One queued episode as the server lists it.
#[derive(Debug, Clone, PartialEq)]
#[allow(non_snake_case)]
pub struct QueuedEpisode {
    pub EpisodeTitle: String,
    pub PodcastName: String,
    pub EpisodePubDate: String,
    pub EpisodeDescription: String,
    pub EpisodeArtwork: String,
    pub EpisodeURL: String,
    pub QueuePosition: i32,
    pub EpisodeDuration: i32,
    pub QueueDate: String,
    pub ListenDuration: Option<i32>,
    pub EpisodeID: i32,
}

/// Answer to the queued-episodes call.
#[derive(Debug, PartialEq, Clone)]
pub struct DataResponse {
    pub data: Vec<QueuedEpisode>,
}

/// Answer to the downloaded-episodes call.
#[derive(Debug, PartialEq, Clone)]
pub struct EpisodeDownloadResponse {
    pub episodes: Vec<Episode>,
}

/// Answer to the listen-history call.
#[derive(Debug, PartialEq, Clone)]
pub struct HistoryEpisodesResponse {
    pub episodes: Vec<Episode>,
}

/// Names the downloaded episode to remove for a user.
#[derive(Debug, PartialEq, Clone)]
pub struct DownloadEpisodeRequest {
    pub episode_id: i32,
    pub user_id: i32,
}

/// The server encodes some booleans as integers: zero is false, anything
/// else is true.
pub fn bool_from_int(value: i32) -> (b: bool)
    ensures
        b == (value != 0),
{
    value != 0
}

/// The HTTP method of a prepared request.
#[derive(Debug, PartialEq, Eq, Clone, Copy)]
pub enum HttpMethod {
    Get,
    Post,
}

/// A fully decided request, ready for the transfer layer: every call carries
/// the API key as a header, and a POST body, where one belongs, is the typed
/// value the caller already holds.
#[derive(Debug, Clone)]
pub struct PreparedRequest {
    pub method: HttpMethod,
    pub url: String,
    pub api_key: String,
}

/// What came back from one attempted transfer, as plain values: either a
/// transport-level failure, or the server's answer with its decoded payload
/// (absent when the body did not match the expected shape).
pub enum HttpOutcome<T> {
    Network { message: String },
    Http { ok: bool, status_text: String, payload: Option<T> },
}

/// The error taxonomy over one outcome: a transport failure is a
/// `NetworkFailure`; a non-success status is `ServerRejected` carrying the
/// server's own status text; a success whose body did not decode is a
/// `DecodeFailure`; otherwise the payload is the result.
pub open spec fn spec_classify<T>(outcome: HttpOutcome<T>) -> Result<T, RequestError> {
    match outcome {
        HttpOutcome::Network { message } => Err(RequestError::NetworkFailure(message)),
        HttpOutcome::Http { ok, status_text, payload } => {
            if !ok {
                Err(RequestError::ServerRejected(status_text))
            } else {
                match payload {
                    Some(value) => Ok(value),
                    None => Err(RequestError::DecodeFailure),
                }
            }
        },
    }
}

/// Sorts one outcome into the error taxonomy; the payload of a successful,
/// well-decoded answer passes through unchanged.
pub fn classify_response<T>(outcome: HttpOutcome<T>) -> (r: Result<T, RequestError>)
    ensures
        r == spec_classify(outcome),
{
    match outcome {
        HttpOutcome::Network { message } => Err(RequestError::NetworkFailure(message)),
        HttpOutcome::Http { ok, status_text, payload } => {
            if !ok {
                Err(RequestError::ServerRejected(status_text))
            } else {
                match payload {
                    Some(value) => Ok(value),
                    None => Err(RequestError::DecodeFailure),
                }
            }
        },
    }
}

/// The credential guard shared by every call: without an API key no request
/// exists, and the call fails as `MissingCredential` before any transfer.
fn require_api_key(api_key: &Option<String>) -> (r: Result<String, RequestError>)
    ensures
        api_key is None ==> r == Err::<String, RequestError>(RequestError::MissingCredential),
        api_key matches Some(k) ==> r matches Ok(key) && key == k,
{
    match api_key {
        None => Err(RequestError::MissingCredential),
        Some(k) => Ok(k.clone()),
    }
}

/// Builds the user-verification request: `GET {server}/api/data/get_user/`.
pub fn prepare_verify_pinepods(server_name: &str, api_key: &Option<String>) -> (r: Result<
    PreparedRequest,
    RequestError,
>)
    ensures
        api_key is None ==> r == Err::<PreparedRequest, RequestError>(
            RequestError::MissingCredential,
        ),
        api_key matches Some(k) ==> r matches Ok(p) && {
            &&& p.method is Get
            &&& p.url@ == server_name@ + "/api/data/get_user/"@
            &&& p.api_key == k
        },
{
    let key = match require_api_key(api_key) {
        Ok(key) => key,
        Err(e) => {
            return Err(e);
        },
    };
    let mut url = String::from_str(server_name);
    url.append("/api/data/get_user/");
    Ok(PreparedRequest { method: HttpMethod::Get, url, api_key: key })
}

/// Builds the recent-episodes request:
/// `GET {server}/api/data/return_episodes/{user_id}`.
pub fn prepare_get_recent_eps(server_name: &str, api_key: &Option<String>, user_id: i32) -> (r:
    Result<PreparedRequest, RequestError>)
    ensures
        api_key is None ==> r == Err::<PreparedRequest, RequestError>(
            RequestError::MissingCredential,
        ),
        api_key matches Some(k) ==> r matches Ok(p) && {
            &&& p.method is Get
            &&& p.url@ == server_name@ + "/api/data/return_episodes/"@ + int_dec(user_id as int)
            &&& p.api_key == k
        },
{
    let key = match require_api_key(api_key) {
        Ok(key) => key,
        Err(e) => {
            return Err(e);
        },
    };
    let mut url = String::from_str(server_name);
    url.append("/api/data/return_episodes/");
    let id = i32_dec(user_id);
    url.append(id.as_str());
    Ok(PreparedRequest { method: HttpMethod::Get, url, api_key: key })
}

/// Builds the add-podcast request: `POST {server}/api/data/add_podcast/`,
/// whose body is the `PodcastValues` the caller holds.
pub fn prepare_add_podcast(server_name: &str, api_key: &Option<String>) -> (r: Result<
    PreparedRequest,
    RequestError,
>)
    ensures
        api_key is None ==> r == Err::<PreparedRequest, RequestError>(
            RequestError::MissingCredential,
        ),
        api_key matches Some(k) ==> r matches Ok(p) && {
            &&& p.method is Post
            &&& p.url@ == server_name@ + "/api/data/add_podcast/"@
            &&& p.api_key == k
        },
{
    let key = match require_api_key(api_key) {
        Ok(key) => key,
        Err(e) => {
            return Err(e);
        },
    };
    let mut url = String::from_str(server_name);
    url.append("/api/data/add_podcast/");
    Ok(PreparedRequest { method: HttpMethod::Post, url, api_key: key })
}

/// Builds the remove-podcast request:
/// `POST {server}/api/data/remove_podcast_id`, whose body is the
/// `RemovePodcastValues` the caller holds.
pub fn prepare_remove_podcasts(server_name: &str, api_key: &Option<String>) -> (r: Result<
    PreparedRequest,
    RequestError,
>)
    ensures
        api_key is None ==> r == Err::<PreparedRequest, RequestError>(
            RequestError::MissingCredential,
        ),
        api_key matches Some(k) ==> r matches Ok(p) && {
            &&& p.method is Post
            &&& p.url@ == server_name@ + "/api/data/remove_podcast_id"@
            &&& p.api_key == k
        },
{
    let key = match require_api_key(api_key) {
        Ok(key) => key,
        Err(e) => {
            return Err(e);
        },
    };
    let mut url = String::from_str(server_name);
    url.append("/api/data/remove_podcast_id");
    Ok(PreparedRequest { method: HttpMethod::Post, url, api_key: key })
}

/// Builds the podcast-list request:
/// `GET {server}/api/data/return_pods/{user_id}`.
pub fn prepare_get_podcasts(server_name: &str, api_key: &Option<String>, user_id: i32) -> (r:
    Result<PreparedRequest, RequestError>)
    ensures
        api_key is None ==> r == Err::<PreparedRequest, RequestError>(
            RequestError::MissingCredential,
        ),
        api_key matches Some(k) ==> r matches Ok(p) && {
            &&& p.method is Get
            &&& p.url@ == server_name@ + "/api/data/return_pods/"@ + int_dec(user_id as int)
            &&& p.api_key == k
        },
{
    let key = match require_api_key(api_key) {
        Ok(key) => key,
        Err(e) => {
            return Err(e);
        },
    };
    let mut url = String::from_str(server_name);
    url.append("/api/data/return_pods/");
    let id = i32_dec(user_id);
    url.append(id.as_str());
    Ok(PreparedRequest { method: HttpMethod::Get, url, api_key: key })
}

/// Builds the queue-episode request: `POST {server}/api/data/queue_pod`,
/// whose body is the `QueuePodcastRequest` the caller holds.
pub fn prepare_queue_episode(server_name: &str, api_key: &Option<String>) -> (r: Result<
    PreparedRequest,
    RequestError,
>)
    ensures
        api_key is None ==> r == Err::<PreparedRequest, RequestError>(
            RequestError::MissingCredential,
        ),
        api_key matches Some(k) ==> r matches Ok(p) && {
            &&& p.method is Post
            &&& p.url@ == server_name@ + "/api/data/queue_pod"@
            &&& p.api_key == k
        },
{
    let key = match require_api_key(api_key) {
        Ok(key) => key,
        Err(e) => {
            return Err(e);
        },
    };
    let mut url = String::from_str(server_name);
    url.append("/api/data/queue_pod");
    Ok(PreparedRequest { method: HttpMethod::Post, url, api_key: key })
}

/// Builds the queued-episodes request:
/// `GET {server}/api/data/get_queued_episodes?user_id={user_id}`.
pub fn prepare_get_queued_episodes(server_name: &str, api_key: &Option<String>, user_id: i32) -> (r:
    Result<PreparedRequest, RequestError>)
    ensures
        api_key is None ==> r == Err::<PreparedRequest, RequestError>(
            RequestError::MissingCredential,
        ),
        api_key matches Some(k) ==> r matches Ok(p) && {
            &&& p.method is Get
            &&& p.url@ == server_name@ + "/api/data/get_queued_episodes?user_id="@ + int_dec(
                user_id as int,
            )
            &&& p.api_key == k
        },
{
    let key = match require_api_key(api_key) {
        Ok(key) => key,
        Err(e) => {
            return Err(e);
        },
    };
    let mut url = String::from_str(server_name);
    url.append("/api/data/get_queued_episodes?user_id=");
    let id = i32_dec(user_id);
    url.append(id.as_str());
    Ok(PreparedRequest { method: HttpMethod::Get, url, api_key: key })
}

/// Classifies the user-verification answer; on success the result is the
/// server's status field.
pub fn classify_verify_pinepods(outcome: HttpOutcome<VerifyResponse>) -> (r: Result<
    String,
    RequestError,
>)
    ensures
        spec_classify(outcome) matches Err(e) ==> r == Err::<String, RequestError>(e),
        spec_classify(outcome) matches Ok(v) ==> r matches Ok(status) && status == v.status,
{
    match classify_response(outcome) {
        Ok(v) => Ok(v.status),
        Err(e) => Err(e),
    }
}

/// Classifies the recent-episodes answer; an absent episode list stands for
/// no episodes.
pub fn classify_get_recent_eps(outcome: HttpOutcome<RecentEps>) -> (r: Result<
    Vec<Episode>,
    RequestError,
>)
    ensures
        spec_classify(outcome) matches Err(e) ==> r == Err::<Vec<Episode>, RequestError>(e),
        spec_classify(outcome) matches Ok(re) ==> r matches Ok(eps) && eps@ == (
        match re.episodes {
            Some(v) => v@,
            None => Seq::<Episode>::empty(),
        }),
{
    match classify_response(outcome) {
        Ok(re) => match re.episodes {
            Some(v) => Ok(v),
            None => Ok(Vec::new()),
        },
        Err(e) => Err(e),
    }
}

/// Classifies the add-podcast answer; on success the result is the server's
/// success flag.
pub fn classify_add_podcast(outcome: HttpOutcome<PodcastStatusResponse>) -> (r: Result<
    bool,
    RequestError,
>)
    ensures
        spec_classify(outcome) matches Err(e) ==> r == Err::<bool, RequestError>(e),
        spec_classify(outcome) matches Ok(sr) ==> r == Ok::<bool, RequestError>(sr.success),
{
    match classify_response(outcome) {
        Ok(sr) => Ok(sr.success),
        Err(e) => Err(e),
    }
}

/// Classifies the remove-podcast answer; on success the result is the
/// server's success flag.
pub fn classify_remove_podcasts(outcome: HttpOutcome<PodcastStatusResponse>) -> (r: Result<
    bool,
    RequestError,
>)
    ensures
        spec_classify(outcome) matches Err(e) ==> r == Err::<bool, RequestError>(e),
        spec_classify(outcome) matches Ok(sr) ==> r == Ok::<bool, RequestError>(sr.success),
{
    match classify_response(outcome) {
        Ok(sr) => Ok(sr.success),
        Err(e) => Err(e),
    }
}

/// Classifies the podcast-list answer; an absent podcast list stands for no
/// podcasts.
pub fn classify_get_podcasts(outcome: HttpOutcome<PodcastResponse>) -> (r: Result<
    Vec<Podcast>,
    RequestError,
>)
    ensures
        spec_classify(outcome) matches Err(e) ==> r == Err::<Vec<Podcast>, RequestError>(e),
        spec_classify(outcome) matches Ok(pr) ==> r matches Ok(pods) && pods@ == (
        match pr.pods {
            Some(v) => v@,
            None => Seq::<Podcast>::empty(),
        }),
{
    match classify_response(outcome) {
        Ok(pr) => match pr.pods {
            Some(v) => Ok(v),
            None => Ok(Vec::new()),
        },
        Err(e) => Err(e),
    }
}

/// Classifies the queue-episode answer. This call reads no body: any
/// successful status is enough, so no decode failure can arise.
pub fn classify_queue_episode(outcome: HttpOutcome<()>) -> (r: Result<(), RequestError>)
    ensures
        outcome matches HttpOutcome::Network { message } ==> r == Err::<(), RequestError>(
            RequestError::NetworkFailure(message),
        ),
        outcome matches HttpOutcome::Http { ok, status_text, payload } ==> {
            &&& ok ==> r == Ok::<(), RequestError>(())
            &&& !ok ==> r == Err::<(), RequestError>(RequestError::ServerRejected(status_text))
        },
{
    match outcome {
        HttpOutcome::Network { message } => Err(RequestError::NetworkFailure(message)),
        HttpOutcome::Http { ok, status_text, payload: _ } => {
            if ok {
                Ok(())
            } else {
                Err(RequestError::ServerRejected(status_text))
            }
        },
    }
}

/// Classifies the queued-episodes answer; on success the result is the
/// episode list the response carries.
pub fn classify_get_queued_episodes(outcome: HttpOutcome<DataResponse>) -> (r: Result<
    Vec<QueuedEpisode>,
    RequestError,
>)
    ensures
        spec_classify(outcome) matches Err(e) ==> r == Err::<Vec<QueuedEpisode>, RequestError>(e),
        spec_classify(outcome) matches Ok(d) ==> r matches Ok(eps) && eps == d.data,
{
    match classify_response(outcome) {
        Ok(d) => Ok(d.data),
        Err(e) => Err(e),
    }
}

/// Classifies the downloaded-episodes answer.
pub fn classify_get_episode_downloads(outcome: HttpOutcome<EpisodeDownloadResponse>) -> (r: Result<
    Vec<Episode>,
    RequestError,
>)
    ensures
        spec_classify(outcome) matches Err(e) ==> r == Err::<Vec<Episode>, RequestError>(e),
        spec_classify(outcome) matches Ok(d) ==> r matches Ok(eps) && eps == d.episodes,
{
    match classify_response(outcome) {
        Ok(d) => Ok(d.episodes),
        Err(e) => Err(e),
    }
}

/// Classifies the listen-history answer.
pub fn classify_get_user_history(outcome: HttpOutcome<HistoryEpisodesResponse>) -> (r: Result<
    Vec<Episode>,
    RequestError,
>)
    ensures
        spec_classify(outcome) matches Err(e) ==> r == Err::<Vec<Episode>, RequestError>(e),
        spec_classify(outcome) matches Ok(h) ==> r matches Ok(eps) && eps == h.episodes,
{
    match classify_response(outcome) {
        Ok(h) => Ok(h.episodes),
        Err(e) => Err(e),
    }
}

/// Classifies the remove-downloaded-episode answer; on success the result is
/// the server's success message.
pub fn classify_remove_downloaded_episode(outcome: HttpOutcome<String>) -> (r: Result<
    String,
    RequestError,
>)
    ensures
        spec_classify(outcome) matches Err(e) ==> r == Err::<String, RequestError>(e),
        spec_classify(outcome) matches Ok(msg) ==> r == Ok::<String, RequestError>(msg),
{
    classify_response(outcome)
}

} // verus!
