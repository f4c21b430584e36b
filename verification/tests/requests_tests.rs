use podclient::requests::{
    bool_from_int, classify_add_podcast, classify_get_episode_downloads, classify_get_podcasts,
    classify_get_queued_episodes, classify_get_recent_eps, classify_get_user_history,
    classify_queue_episode, classify_remove_downloaded_episode, classify_remove_podcasts,
    classify_verify_pinepods, prepare_add_podcast, prepare_get_podcasts,
    prepare_get_queued_episodes, prepare_get_recent_eps, prepare_queue_episode,
    prepare_remove_podcasts, prepare_verify_pinepods, DataResponse, Episode,
    EpisodeDownloadResponse, HistoryEpisodesResponse, HttpMethod, HttpOutcome, Podcast,
    PodcastResponse, PodcastStatusResponse, QueuedEpisode, RecentEps, RequestError,
    VerifyResponse,
};

fn episode(id: i32, title: &str) -> Episode {
    Episode {
        PodcastName: "Some Podcast".to_string(),
        EpisodeTitle: title.to_string(),
        EpisodePubDate: "2024-01-01".to_string(),
        EpisodeDescription: "A description".to_string(),
        EpisodeArtwork: "http://example.com/art.png".to_string(),
        EpisodeURL: format!("http://example.com/{}.mp3", id),
        EpisodeDuration: 600,
        ListenDuration: None,
        EpisodeID: id,
    }
}

#[test]
fn missing_api_key_never_builds_a_request() {
    let none: Option<String> = None;
    assert_eq!(
        prepare_verify_pinepods("http://srv", &none).unwrap_err(),
        RequestError::MissingCredential
    );
    assert_eq!(
        prepare_get_recent_eps("http://srv", &none, 1).unwrap_err(),
        RequestError::MissingCredential
    );
    assert_eq!(
        prepare_add_podcast("http://srv", &none).unwrap_err(),
        RequestError::MissingCredential
    );
    assert_eq!(
        prepare_remove_podcasts("http://srv", &none).unwrap_err(),
        RequestError::MissingCredential
    );
    assert_eq!(
        prepare_get_podcasts("http://srv", &none, 1).unwrap_err(),
        RequestError::MissingCredential
    );
    assert_eq!(
        prepare_queue_episode("http://srv", &none).unwrap_err(),
        RequestError::MissingCredential
    );
    assert_eq!(
        prepare_get_queued_episodes("http://srv", &none, 1).unwrap_err(),
        RequestError::MissingCredential
    );
}

#[test]
fn prepared_requests_carry_url_and_api_key() {
    let key = Some("SECRET-REDACTED".to_string());

    let p = prepare_verify_pinepods("http://srv", &key).unwrap();
    assert_eq!(p.method, HttpMethod::Get);
    assert_eq!(p.url, "http://srv/api/data/get_user/");
    assert_eq!(p.api_key, "SECRET-REDACTED");

    let p = prepare_get_recent_eps("http://srv", &key, 7).unwrap();
    assert_eq!(p.method, HttpMethod::Get);
    assert_eq!(p.url, "http://srv/api/data/return_episodes/7");

    let p = prepare_add_podcast("http://srv", &key).unwrap();
    assert_eq!(p.method, HttpMethod::Post);
    assert_eq!(p.url, "http://srv/api/data/add_podcast/");

    let p = prepare_remove_podcasts("http://srv", &key).unwrap();
    assert_eq!(p.method, HttpMethod::Post);
    assert_eq!(p.url, "http://srv/api/data/remove_podcast_id");

    let p = prepare_get_podcasts("http://srv", &key, -3).unwrap();
    assert_eq!(p.method, HttpMethod::Get);
    assert_eq!(p.url, "http://srv/api/data/return_pods/-3");

    let p = prepare_queue_episode("http://srv", &key).unwrap();
    assert_eq!(p.method, HttpMethod::Post);
    assert_eq!(p.url, "http://srv/api/data/queue_pod");

    let p = prepare_get_queued_episodes("http://srv", &key, 12).unwrap();
    assert_eq!(p.method, HttpMethod::Get);
    assert_eq!(p.url, "http://srv/api/data/get_queued_episodes?user_id=12");
}

#[test]
fn server_rejection_carries_literal_status_text() {
    let outcome: HttpOutcome<HistoryEpisodesResponse> = HttpOutcome::Http {
        ok: false,
        status_text: "500 Internal Server Error".to_string(),
        payload: None,
    };
    assert_eq!(
        classify_get_user_history(outcome).unwrap_err(),
        RequestError::ServerRejected("500 Internal Server Error".to_string())
    );
}

#[test]
fn undecodable_success_body_is_a_decode_failure_not_a_rejection() {
    let outcome: HttpOutcome<HistoryEpisodesResponse> = HttpOutcome::Http {
        ok: true,
        status_text: "200 OK".to_string(),
        payload: None,
    };
    assert_eq!(
        classify_get_user_history(outcome).unwrap_err(),
        RequestError::DecodeFailure
    );
}

#[test]
fn transport_errors_are_network_failures() {
    let outcome: HttpOutcome<VerifyResponse> = HttpOutcome::Network {
        message: "connection refused".to_string(),
    };
    assert_eq!(
        classify_verify_pinepods(outcome).unwrap_err(),
        RequestError::NetworkFailure("connection refused".to_string())
    );
}

#[test]
fn verify_success_returns_server_status_field() {
    let outcome = HttpOutcome::Http {
        ok: true,
        status_text: "200 OK".to_string(),
        payload: Some(VerifyResponse {
            status: "success".to_string(),
            retrieved_id: 4,
        }),
    };
    assert_eq!(classify_verify_pinepods(outcome).unwrap(), "success");
}

#[test]
fn recent_eps_absent_list_stands_for_no_episodes() {
    let outcome = HttpOutcome::Http {
        ok: true,
        status_text: "200 OK".to_string(),
        payload: Some(RecentEps { episodes: None }),
    };
    assert_eq!(classify_get_recent_eps(outcome).unwrap(), Vec::new());

    let outcome = HttpOutcome::Http {
        ok: true,
        status_text: "200 OK".to_string(),
        payload: Some(RecentEps {
            episodes: Some(vec![episode(1, "One"), episode(2, "Two")]),
        }),
    };
    let eps = classify_get_recent_eps(outcome).unwrap();
    assert_eq!(eps.len(), 2);
    assert_eq!(eps[0].EpisodeID, 1);
    assert_eq!(eps[1].EpisodeTitle, "Two");
}

#[test]
fn podcast_status_flag_passes_through() {
    let ok = HttpOutcome::Http {
        ok: true,
        status_text: "200 OK".to_string(),
        payload: Some(PodcastStatusResponse { success: true }),
    };
    assert_eq!(classify_add_podcast(ok).unwrap(), true);
    let no = HttpOutcome::Http {
        ok: true,
        status_text: "200 OK".to_string(),
        payload: Some(PodcastStatusResponse { success: false }),
    };
    assert_eq!(classify_remove_podcasts(no).unwrap(), false);
}

#[test]
fn podcast_list_unwraps_absent_as_empty() {
    let outcome = HttpOutcome::Http {
        ok: true,
        status_text: "200 OK".to_string(),
        payload: Some(PodcastResponse { pods: None }),
    };
    assert_eq!(classify_get_podcasts(outcome).unwrap(), Vec::new());

    let pod = Podcast {
        PodcastID: 3,
        PodcastName: "A Show".to_string(),
        ArtworkURL: "http://example.com/a.png".to_string(),
        Description: "About things".to_string(),
        EpisodeCount: 12,
        WebsiteURL: "http://example.com".to_string(),
        FeedURL: "http://example.com/feed".to_string(),
        Author: "Someone".to_string(),
        Categories: "News".to_string(),
        Explicit: false,
    };
    let outcome = HttpOutcome::Http {
        ok: true,
        status_text: "200 OK".to_string(),
        payload: Some(PodcastResponse {
            pods: Some(vec![pod.clone()]),
        }),
    };
    assert_eq!(classify_get_podcasts(outcome).unwrap(), vec![pod]);
}

#[test]
fn queue_episode_ignores_the_body_on_success() {
    let outcome: HttpOutcome<()> = HttpOutcome::Http {
        ok: true,
        status_text: "200 OK".to_string(),
        payload: None,
    };
    assert!(classify_queue_episode(outcome).is_ok());

    let outcome: HttpOutcome<()> = HttpOutcome::Http {
        ok: false,
        status_text: "403 Forbidden".to_string(),
        payload: None,
    };
    assert_eq!(
        classify_queue_episode(outcome).unwrap_err(),
        RequestError::ServerRejected("403 Forbidden".to_string())
    );
}

#[test]
fn queued_episodes_pass_through() {
    let queued = QueuedEpisode {
        EpisodeTitle: "Queued".to_string(),
        PodcastName: "A Show".to_string(),
        EpisodePubDate: "2024-02-02".to_string(),
        EpisodeDescription: "desc".to_string(),
        EpisodeArtwork: "http://example.com/a.png".to_string(),
        EpisodeURL: "http://example.com/q.mp3".to_string(),
        QueuePosition: 1,
        EpisodeDuration: 300,
        QueueDate: "2024-02-03".to_string(),
        ListenDuration: Some(30),
        EpisodeID: 9,
    };
    let outcome = HttpOutcome::Http {
        ok: true,
        status_text: "200 OK".to_string(),
        payload: Some(DataResponse {
            data: vec![queued.clone()],
        }),
    };
    assert_eq!(classify_get_queued_episodes(outcome).unwrap(), vec![queued]);
}

#[test]
fn downloads_and_removal_answers_pass_through() {
    let outcome = HttpOutcome::Http {
        ok: true,
        status_text: "200 OK".to_string(),
        payload: Some(EpisodeDownloadResponse {
            episodes: vec![episode(5, "Kept")],
        }),
    };
    let eps = classify_get_episode_downloads(outcome).unwrap();
    assert_eq!(eps.len(), 1);
    assert_eq!(eps[0].EpisodeID, 5);

    let outcome: HttpOutcome<String> = HttpOutcome::Http {
        ok: true,
        status_text: "200 OK".to_string(),
        payload: Some("Episode removed".to_string()),
    };
    assert_eq!(
        classify_remove_downloaded_episode(outcome).unwrap(),
        "Episode removed"
    );
}

#[test]
fn bool_from_int_reads_zero_as_false() {
    assert!(!bool_from_int(0));
    assert!(bool_from_int(1));
    assert!(bool_from_int(-2));
}
