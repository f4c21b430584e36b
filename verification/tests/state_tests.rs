use podclient::requests::{Episode, EpisodeDownloadResponse, RequestError};
use podclient::state::{
    complete_episode_removal, complete_podcast_toggle, record_fetch_failure, should_show_banner,
    toggle_description_message, AppState, AppStateMsg, UIState, UIStateMsg,
};

fn episode(id: i32) -> Episode {
    Episode {
        PodcastName: "Some Podcast".to_string(),
        EpisodeTitle: format!("Episode {}", id),
        EpisodePubDate: "2024-01-01".to_string(),
        EpisodeDescription: "A description".to_string(),
        EpisodeArtwork: "http://example.com/art.png".to_string(),
        EpisodeURL: format!("http://example.com/{}.mp3", id),
        EpisodeDuration: 600,
        ListenDuration: None,
        EpisodeID: id,
    }
}

#[test]
fn expand_and_collapse_descriptions() {
    let state = AppState::new();
    let state = AppStateMsg::ExpandEpisode("guid-a".to_string()).apply(state);
    assert_eq!(state.expanded_descriptions, vec!["guid-a".to_string()]);
    let state = AppStateMsg::ExpandEpisode("guid-b".to_string()).apply(state);
    assert_eq!(state.expanded_descriptions.len(), 2);
    let state = AppStateMsg::CollapseEpisode("guid-a".to_string()).apply(state);
    assert_eq!(state.expanded_descriptions, vec!["guid-b".to_string()]);
}

#[test]
fn expanding_twice_keeps_one_entry() {
    let state = AppState::new();
    let state = AppStateMsg::ExpandEpisode("guid-a".to_string()).apply(state);
    let state = AppStateMsg::ExpandEpisode("guid-a".to_string()).apply(state);
    assert_eq!(state.expanded_descriptions, vec!["guid-a".to_string()]);
}

#[test]
fn collapsing_an_absent_description_changes_nothing() {
    let state = AppState::new();
    let state = AppStateMsg::ExpandEpisode("guid-a".to_string()).apply(state);
    let state = AppStateMsg::CollapseEpisode("guid-b".to_string()).apply(state);
    assert_eq!(state.expanded_descriptions, vec!["guid-a".to_string()]);
}

#[test]
fn toggle_picks_the_right_message() {
    let state = AppState::new();
    let msg = toggle_description_message(&state, "guid-a".to_string());
    assert!(matches!(msg, AppStateMsg::ExpandEpisode(_)));
    let state = msg.apply(state);
    let msg = toggle_description_message(&state, "guid-a".to_string());
    assert!(matches!(msg, AppStateMsg::CollapseEpisode(_)));
    let state = msg.apply(state);
    assert!(state.expanded_descriptions.is_empty());
}

#[test]
fn clearing_banners_is_selective() {
    let mut ui = UIState::new();
    ui.error_message = Some("bad".to_string());
    ui.info_message = Some("fine".to_string());
    let ui = UIStateMsg::ClearErrorMessage.apply(ui);
    assert!(ui.error_message.is_none());
    assert_eq!(ui.info_message, Some("fine".to_string()));
    let ui = UIStateMsg::ClearInfoMessage.apply(ui);
    assert!(ui.info_message.is_none());
}

#[test]
fn banners_show_only_for_non_empty_messages() {
    assert!(!should_show_banner(&None));
    assert!(!should_show_banner(&Some(String::new())));
    assert!(should_show_banner(&Some("something broke".to_string())));
}

#[test]
fn deletion_selection_stays_duplicate_free() {
    let mut state = AppState::new();
    state.select_episode_for_deletion(4);
    state.select_episode_for_deletion(9);
    state.select_episode_for_deletion(4);
    assert_eq!(state.selected_episodes_for_deletion, vec![4, 9]);
}

#[test]
fn begin_delete_builds_one_request_per_selection_and_clears_it() {
    let mut state = AppState::new();
    state.select_episode_for_deletion(4);
    state.select_episode_for_deletion(9);
    let batch = state.begin_delete_selected(77);
    assert!(state.selected_episodes_for_deletion.is_empty());
    assert_eq!(batch.len(), 2);
    assert_eq!(batch[0].episode_id, 4);
    assert_eq!(batch[0].user_id, 77);
    assert_eq!(batch[1].episode_id, 9);
    assert_eq!(batch[1].user_id, 77);
    let again = state.begin_delete_selected(77);
    assert!(again.is_empty());
}

#[test]
fn completed_removal_drops_the_episode_and_raises_the_banner() {
    let mut app = AppState::new();
    let mut ui = UIState::new();
    app.record_downloaded_episodes(vec![episode(1), episode(2), episode(3)]);
    complete_episode_removal(&mut app, &mut ui, 2, "Episode removed".to_string());
    let downloads = app.downloaded_episodes.as_ref().unwrap();
    let ids: Vec<i32> = downloads.episodes.iter().map(|e| e.EpisodeID).collect();
    assert_eq!(ids, vec![1, 3]);
    assert_eq!(ui.info_message, Some("Episode removed".to_string()));
}

#[test]
fn stale_removal_completion_changes_no_list() {
    let mut app = AppState::new();
    let mut ui = UIState::new();
    app.record_downloaded_episodes(vec![episode(1), episode(3)]);
    complete_episode_removal(&mut app, &mut ui, 2, "Episode removed".to_string());
    let downloads = app.downloaded_episodes.as_ref().unwrap();
    assert_eq!(
        downloads.episodes,
        vec![episode(1), episode(3)]
    );

    let mut empty_app = AppState::new();
    complete_episode_removal(&mut empty_app, &mut ui, 2, "Episode removed".to_string());
    assert!(empty_app.downloaded_episodes.is_none());
}

#[test]
fn fetch_failures_surface_as_the_error_banner() {
    let mut ui = UIState::new();
    record_fetch_failure(
        &mut ui,
        &RequestError::ServerRejected("503 Service Unavailable".to_string()),
    );
    assert_eq!(
        ui.error_message,
        Some("Server error: 503 Service Unavailable".to_string())
    );
    record_fetch_failure(&mut ui, &RequestError::MissingCredential);
    assert_eq!(ui.error_message, Some("API key is missing".to_string()));
    record_fetch_failure(
        &mut ui,
        &RequestError::NetworkFailure("connection refused".to_string()),
    );
    assert_eq!(
        ui.error_message,
        Some("Network error: connection refused".to_string())
    );
    record_fetch_failure(&mut ui, &RequestError::DecodeFailure);
    assert_eq!(
        ui.error_message,
        Some("Failed to deserialize response".to_string())
    );
    assert!(ui.info_message.is_none());
}

#[test]
fn confirmed_podcast_toggle_flips_membership() {
    let mut ui = UIState::new();
    let out = complete_podcast_toggle(&mut ui, true, true, Ok(true));
    assert!(!out.is_added);
    assert!(!out.is_loading);
    assert_eq!(
        ui.info_message,
        Some("Podcast successfully removed".to_string())
    );

    let mut ui = UIState::new();
    let out = complete_podcast_toggle(&mut ui, false, false, Ok(true));
    assert!(out.is_added);
    assert_eq!(
        ui.info_message,
        Some("Podcast successfully added".to_string())
    );
}

#[test]
fn unconfirmed_or_failed_podcast_toggle_keeps_membership() {
    let mut ui = UIState::new();
    let out = complete_podcast_toggle(&mut ui, false, false, Ok(false));
    assert!(!out.is_added);
    assert_eq!(ui.error_message, Some("Failed to add podcast".to_string()));
    assert!(ui.info_message.is_none());

    let mut ui = UIState::new();
    let out = complete_podcast_toggle(
        &mut ui,
        true,
        true,
        Err(RequestError::ServerRejected("500".to_string())),
    );
    assert!(out.is_added);
    assert!(!out.is_loading);
    assert_eq!(
        ui.error_message,
        Some("Error adding podcast: Server error: 500".to_string())
    );
}

#[test]
fn recording_fetches_fills_the_stores() {
    let mut app = AppState::new();
    app.record_episode_history(vec![episode(8)]);
    assert_eq!(
        app.episode_history.as_ref().unwrap().episodes[0].EpisodeID,
        8
    );
    app.record_downloaded_episodes(vec![episode(6)]);
    assert_eq!(
        app.downloaded_episodes,
        Some(EpisodeDownloadResponse {
            episodes: vec![episode(6)]
        })
    );
}
