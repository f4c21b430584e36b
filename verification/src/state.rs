//! Shared view state outside the playback session.
//!
//! Two stores back the views: the app store tracks which episode
//! descriptions are expanded, the fetched download and history lists, and
//! the episodes ticked for deletion; the UI store carries the transient
//! error and info banners. Views never write these fields directly — every
//! mutation goes through the message `apply` functions and the helpers
//! here, which keep the tracked collections duplicate-free and tolerate
//! stale completions (a removal that arrives after the entry is already
//! gone changes nothing).

use vstd::prelude::*;
use crate::requests::{
    DownloadEpisodeRequest, Episode, EpisodeDownloadResponse, HistoryEpisodesResponse,
    RequestError,
};

verus! {

/// The app store: per-tab state every list view reads.
pub struct AppState {
    /// Identifiers of the episodes whose description is shown in full.
    pub expanded_descriptions: Vec<String>,
    /// Episodes ticked for deletion while the downloads view is in delete
    /// mode.
    pub selected_episodes_for_deletion: Vec<i32>,
    /// The fetched download list, once it arrived.
    pub downloaded_episodes: Option<EpisodeDownloadResponse>,
    /// The fetched listen history, once it arrived.
    pub episode_history: Option<HistoryEpisodesResponse>,
}

/// The UI store: the transient banners.
pub struct UIState {
    pub error_message: Option<String>,
    pub info_message: Option<String>,
}

/// Messages that mutate the app store.
pub enum AppStateMsg {
    ExpandEpisode(String),
    CollapseEpisode(String),
}

/// Messages that mutate the UI store.
pub enum UIStateMsg {
    ClearErrorMessage,
    ClearInfoMessage,
}

/// Whether some string in the sequence reads `g`.
pub open spec fn seq_has_view(v: Seq<String>, g: Seq<char>) -> bool {
    exists|i: int| 0 <= i < v.len() && v[i]@ == g
}

impl AppState {
    /// Whether the description for `guid` is expanded.
    pub open spec fn expanded_contains(self, guid: Seq<char>) -> bool {
        seq_has_view(self.expanded_descriptions@, guid)
    }

    /// Whether `episode_id` is ticked for deletion.
    pub open spec fn selection_contains(self, episode_id: i32) -> bool {
        self.selected_episodes_for_deletion@.contains(episode_id)
    }

    /// The store invariant: both tracked collections hold each entry once.
    pub open spec fn wf(self) -> bool {
        &&& forall|i: int, j: int|
            0 <= i < j < self.expanded_descriptions@.len()
                ==> self.expanded_descriptions@[i]@ != self.expanded_descriptions@[j]@
        &&& forall|i: int, j: int|
            0 <= i < j < self.selected_episodes_for_deletion@.len()
                ==> self.selected_episodes_for_deletion@[i]
                != self.selected_episodes_for_deletion@[j]
    }

    /// An app store with nothing fetched, nothing expanded, nothing ticked.
    pub fn new() -> (state: AppState)
        ensures
            state.wf(),
            state.expanded_descriptions@.len() == 0,
            state.selected_episodes_for_deletion@.len() == 0,
            state.downloaded_episodes is None,
            state.episode_history is None,
    {
        AppState {
            expanded_descriptions: Vec::new(),
            selected_episodes_for_deletion: Vec::new(),
            downloaded_episodes: None,
            episode_history: None,
        }
    }
}

impl UIState {
    /// A UI store with no banner shown.
    pub fn new() -> (state: UIState)
        ensures
            state.error_message is None,
            state.info_message is None,
    {
        UIState { error_message: None, info_message: None }
    }
}

fn find_string_index(v: &Vec<String>, x: &String) -> (r: Option<usize>)
    ensures
        r matches Some(found) ==> found < v@.len() && v@[found as int]@ == x@,
        r is None ==> forall|i: int| 0 <= i < v@.len() ==> v@[i]@ != x@,
{
    let mut idx: usize = 0;
    while idx < v.len()
        invariant
            idx <= v@.len(),
            forall|i: int| 0 <= i < idx ==> v@[i]@ != x@,
        decreases v@.len() - idx,
    {
        if v[idx].eq(x) {
            return Some(idx);
        }
        idx = idx + 1;
    }
    None
}

impl AppStateMsg {
    /// Applies one message to the app store. Expanding marks the episode's
    /// description as shown in full; collapsing unmarks it; every other part
    /// of the store is untouched. Both directions are idempotent, and the
    /// expansion set stays duplicate-free.
    pub fn apply(self, state: AppState) -> (r: AppState)
        requires
            state.wf(),
        ensures
            r.wf(),
            self matches AppStateMsg::ExpandEpisode(guid) ==> forall|g: Seq<char>|
                #[trigger] r.expanded_contains(g) <==> (state.expanded_contains(g) || g == guid@),
            self matches AppStateMsg::CollapseEpisode(guid) ==> forall|g: Seq<char>|
                #[trigger] r.expanded_contains(g) <==> (state.expanded_contains(g) && g != guid@),
            r.selected_episodes_for_deletion == state.selected_episodes_for_deletion,
            r.downloaded_episodes == state.downloaded_episodes,
            r.episode_history == state.episode_history,
    {
        let AppState {
            expanded_descriptions,
            selected_episodes_for_deletion,
            downloaded_episodes,
            episode_history,
        } = state;
        let mut expanded = expanded_descriptions;
        match self {
            AppStateMsg::ExpandEpisode(guid) => {
                let ghost pre = expanded@;
                match find_string_index(&expanded, &guid) {
                    Some(at) => {
                        proof {
                            assert forall|g: Seq<char>| #![trigger seq_has_view(expanded@, g)]
                                seq_has_view(expanded@, g) == (seq_has_view(pre, g) || g
                                == guid@) by {
                                if g == guid@ {
                                    assert(pre[at as int]@ == g);
                                }
                            }
                        }
                    }
                    None => {
                        expanded.push(guid);
                        proof {
                            let post = expanded@;
                            assert forall|g: Seq<char>| #![trigger seq_has_view(post, g)]
                                seq_has_view(post, g) == (seq_has_view(pre, g) || g == guid@) by {
                                if seq_has_view(post, g) {
                                    let i = choose|i: int| 0 <= i < post.len() && post[i]@ == g;
                                    if i < pre.len() {
                                        assert(pre[i]@ == g);
                                    } else {
                                        assert(post[i] == post.last());
                                    }
                                }
                                if seq_has_view(pre, g) {
                                    let i = choose|i: int| 0 <= i < pre.len() && pre[i]@ == g;
                                    assert(post[i]@ == g);
                                }
                                if g == guid@ {
                                    assert(post[pre.len() as int]@ == g);
                                }
                            }
                            assert forall|i: int, j: int|
                                0 <= i < j < post.len() implies post[i]@ != post[j]@ by {
                                if j < pre.len() {
                                    assert(post[i] == pre[i] && post[j] == pre[j]);
                                } else {
                                    assert(post[i] == pre[i]);
                                }
                            }
                        }
                    }
                }
            },
            AppStateMsg::CollapseEpisode(guid) => {
                let ghost pre = expanded@;
                match find_string_index(&expanded, &guid) {
                    Some(at) => {
                        expanded.remove(at);
                        proof {
                            let post = expanded@;
                            assert forall|g: Seq<char>| #![trigger seq_has_view(post, g)]
                                seq_has_view(post, g) == (seq_has_view(pre, g) && g != guid@) by {
                                if seq_has_view(post, g) {
                                    let i = choose|i: int| 0 <= i < post.len() && post[i]@ == g;
                                    if i < at {
                                        assert(pre[i]@ == g);
                                        assert(pre[i]@ != guid@);
                                    } else {
                                        assert(pre[i + 1]@ == g);
                                        assert(pre[i + 1]@ != guid@);
                                    }
                                }
                                if seq_has_view(pre, g) && g != guid@ {
                                    let i = choose|i: int| 0 <= i < pre.len() && pre[i]@ == g;
                                    if i < at {
                                        assert(post[i]@ == g);
                                    } else {
                                        assert(i != at);
                                        assert(post[i - 1]@ == g);
                                    }
                                }
                            }
                            assert forall|i: int, j: int|
                                0 <= i < j < post.len() implies post[i]@ != post[j]@ by {
                                let pi = if i < at as int { i } else { i + 1 };
                                let pj = if j < at as int { j } else { j + 1 };
                                assert(post[i] == pre[pi] && post[j] == pre[pj]);
                            }
                        }
                    }
                    None => {
                    }
                }
            },
        }
        AppState {
            expanded_descriptions: expanded,
            selected_episodes_for_deletion,
            downloaded_episodes,
            episode_history,
        }
    }
}

impl UIStateMsg {
    /// Applies one message to the UI store: clearing one banner leaves the
    /// other as it was.
    pub fn apply(self, state: UIState) -> (r: UIState)
        ensures
            self is ClearErrorMessage ==> r.error_message is None && r.info_message
                == state.info_message,
            self is ClearInfoMessage ==> r.info_message is None && r.error_message
                == state.error_message,
    {
        match self {
            UIStateMsg::ClearErrorMessage => UIState { error_message: None, ..state },
            UIStateMsg::ClearInfoMessage => UIState { info_message: None, ..state },
        }
    }
}

impl AppState {
    /// Ticks an episode for deletion; ticking one already ticked changes
    /// nothing, so the selection stays duplicate-free.
    pub fn select_episode_for_deletion(&mut self, episode_id: i32)
        requires
            old(self).wf(),
        ensures
            final(self).wf(),
            forall|id: i32| #[trigger]
                final(self).selection_contains(id) <==> (old(self).selection_contains(id) || id
                    == episode_id),
            final(self).expanded_descriptions == old(self).expanded_descriptions,
            final(self).downloaded_episodes == old(self).downloaded_episodes,
            final(self).episode_history == old(self).episode_history,
    {
        let ghost pre = self.selected_episodes_for_deletion@;
        let mut idx: usize = 0;
        while idx < self.selected_episodes_for_deletion.len()
            invariant
                idx <= self.selected_episodes_for_deletion@.len(),
                *self == *old(self),
                self.wf(),
                self.selected_episodes_for_deletion@ == pre,
                forall|i: int| 0 <= i < idx ==> pre[i] != episode_id,
            decreases self.selected_episodes_for_deletion@.len() - idx,
        {
            if self.selected_episodes_for_deletion[idx] == episode_id {
                proof {
                    assert(pre.contains(episode_id));
                }
                return ;
            }
            idx = idx + 1;
        }
        self.selected_episodes_for_deletion.push(episode_id);
        proof {
            let post = self.selected_episodes_for_deletion@;
            assert forall|id: i32| #[trigger]
                post.contains(id) == (pre.contains(id) || id == episode_id) by {
                if post.contains(id) {
                    let i = choose|i: int| 0 <= i < post.len() && post[i] == id;
                    if i < pre.len() {
                        assert(pre[i] == id);
                    }
                }
                if pre.contains(id) {
                    let i = choose|i: int| 0 <= i < pre.len() && pre[i] == id;
                    assert(post[i] == id);
                }
                if id == episode_id {
                    assert(post[pre.len() as int] == id);
                }
            }
            assert forall|i: int, j: int| 0 <= i < j < post.len() implies post[i] != post[j] by {
                if j < pre.len() {
                    assert(post[i] == pre[i] && post[j] == pre[j]);
                } else {
                    assert(post[i] == pre[i]);
                    assert(pre.contains(pre[i]));
                }
            }
        }
    }

    /// Empties the deletion selection and hands back one removal request per
    /// previously ticked episode, in selection order, all for the given
    /// user. Emptying first is what makes a re-render harmless: the same
    /// batch can never be produced twice.
    pub fn begin_delete_selected(&mut self, user_id: i32) -> (batch: Vec<DownloadEpisodeRequest>)
        requires
            old(self).wf(),
        ensures
            final(self).wf(),
            final(self).selected_episodes_for_deletion@.len() == 0,
            batch@.len() == old(self).selected_episodes_for_deletion@.len(),
            forall|i: int|
                0 <= i < batch@.len() ==> #[trigger] batch@[i] == (DownloadEpisodeRequest {
                    episode_id: old(self).selected_episodes_for_deletion@[i],
                    user_id: user_id,
                }),
            final(self).expanded_descriptions == old(self).expanded_descriptions,
            final(self).downloaded_episodes == old(self).downloaded_episodes,
            final(self).episode_history == old(self).episode_history,
    {
        let ghost pre = self.selected_episodes_for_deletion@;
        let mut batch: Vec<DownloadEpisodeRequest> = Vec::new();
        let mut idx: usize = 0;
        while idx < self.selected_episodes_for_deletion.len()
            invariant
                idx <= self.selected_episodes_for_deletion@.len(),
                *self == *old(self),
                self.wf(),
                self.selected_episodes_for_deletion@ == pre,
                batch@.len() == idx,
                forall|i: int|
                    0 <= i < idx ==> #[trigger] batch@[i] == (DownloadEpisodeRequest {
                        episode_id: pre[i],
                        user_id: user_id,
                    }),
            decreases self.selected_episodes_for_deletion@.len() - idx,
        {
            let episode_id = self.selected_episodes_for_deletion[idx];
            batch.push(DownloadEpisodeRequest { episode_id, user_id });
            idx = idx + 1;
        }
        self.selected_episodes_for_deletion.clear();
        batch
    }

    /// Records a fetched download list.
    pub fn record_downloaded_episodes(&mut self, episodes: Vec<Episode>)
        ensures
            final(self).downloaded_episodes matches Some(d) && d.episodes == episodes,
            final(self).expanded_descriptions == old(self).expanded_descriptions,
            final(self).selected_episodes_for_deletion == old(self).selected_episodes_for_deletion,
            final(self).episode_history == old(self).episode_history,
    {
        self.downloaded_episodes = Some(EpisodeDownloadResponse { episodes });
    }

    /// Records a fetched listen history.
    pub fn record_episode_history(&mut self, episodes: Vec<Episode>)
        ensures
            final(self).episode_history matches Some(h) && h.episodes == episodes,
            final(self).expanded_descriptions == old(self).expanded_descriptions,
            final(self).selected_episodes_for_deletion == old(self).selected_episodes_for_deletion,
            final(self).downloaded_episodes == old(self).downloaded_episodes,
    {
        self.episode_history = Some(HistoryEpisodesResponse { episodes });
    }
}

fn retain_other_episodes(episodes: Vec<Episode>, episode_id: i32) -> (out: Vec<Episode>)
    ensures
        out@ == episodes@.filter(|e: Episode| e.EpisodeID != episode_id),
    decreases episodes@.len(),
{
    let ghost full = episodes@;
    let mut episodes = episodes;
    match episodes.pop() {
        None => {
            proof {
                reveal(Seq::filter);
            }
            episodes
        },
        Some(last) => {
            let ghost rest = episodes@;
            let mut out = retain_other_episodes(episodes, episode_id);
            if last.EpisodeID != episode_id {
                out.push(last);
            }
            proof {
                reveal(Seq::filter);
                assert(full.drop_last() =~= rest);
                assert(full.last() == last);
            }
            out
        },
    }
}

/// A removal completion arriving from the network: drops every download
/// with the removed episode's identifier and raises the server's success
/// message as the info banner. The completion may be stale — if the entry
/// is already gone (or no download list was ever fetched), the list is
/// simply unchanged.
pub fn complete_episode_removal(
    app: &mut AppState,
    ui: &mut UIState,
    episode_id: i32,
    success_message: String,
)
    requires
        old(app).wf(),
    ensures
        final(app).wf(),
        old(app).downloaded_episodes matches Some(d) ==> final(app).downloaded_episodes matches Some(
            r,
        ) && r.episodes@ == d.episodes@.filter(|e: Episode| e.EpisodeID != episode_id),
        old(app).downloaded_episodes is None ==> final(app).downloaded_episodes is None,
        final(app).expanded_descriptions == old(app).expanded_descriptions,
        final(app).selected_episodes_for_deletion == old(app).selected_episodes_for_deletion,
        final(app).episode_history == old(app).episode_history,
        final(ui).info_message matches Some(m) && m == success_message,
        final(ui).error_message == old(ui).error_message,
{
    match app.downloaded_episodes.take() {
        Some(d) => {
            let kept = retain_other_episodes(d.episodes, episode_id);
            app.downloaded_episodes = Some(EpisodeDownloadResponse { episodes: kept });
        },
        None => {
        },
    }
    ui.info_message = Some(success_message);
}

/// The views' description toggle: collapse an expanded description, expand
/// a collapsed one.
pub fn toggle_description_message(state: &AppState, guid: String) -> (msg: AppStateMsg)
    ensures
        state.expanded_contains(guid@) ==> msg == AppStateMsg::CollapseEpisode(guid),
        !state.expanded_contains(guid@) ==> msg == AppStateMsg::ExpandEpisode(guid),
{
    match find_string_index(&state.expanded_descriptions, &guid) {
        Some(_) => AppStateMsg::CollapseEpisode(guid),
        None => AppStateMsg::ExpandEpisode(guid),
    }
}

/// A failed fetch surfaces as the error banner; nothing else changes and
/// nothing crashes the view.
pub fn record_fetch_failure(ui: &mut UIState, error: &RequestError)
    ensures
        final(ui).error_message matches Some(m) && m@ == error.spec_message(),
        final(ui).info_message == old(ui).info_message,
{
    ui.error_message = Some(error.message());
}

/// What the podcast toggle hands back to its view when a call completes:
/// whether the podcast is now in the user's feed, and that the loading
/// spinner stops.
pub struct PodcastToggleOutcome {
    pub is_added: bool,
    pub is_loading: bool,
}

/// Completion of the podcast add/remove toggle. A confirmed success flips
/// the membership and raises the matching info banner; a server answer
/// without the success flag, or any classified failure, leaves membership
/// as it was and raises the error banner. The spinner stops in every case.
pub fn complete_podcast_toggle(
    ui: &mut UIState,
    removing: bool,
    was_added: bool,
    result: Result<bool, RequestError>,
) -> (out: PodcastToggleOutcome)
    ensures
        out.is_loading == false,
        result == Ok::<bool, RequestError>(true) ==> {
            &&& final(ui).info_message matches Some(m) && m@ == (if removing {
                "Podcast successfully removed"@
            } else {
                "Podcast successfully added"@
            })
            &&& final(ui).error_message == old(ui).error_message
            &&& out.is_added == !removing
        },
        result == Ok::<bool, RequestError>(false) ==> {
            &&& final(ui).error_message matches Some(m) && m@ == "Failed to add podcast"@
            &&& final(ui).info_message == old(ui).info_message
            &&& out.is_added == was_added
        },
        result matches Err(e) ==> {
            &&& final(ui).error_message matches Some(m) && m@ == "Error adding podcast: "@
                + e.spec_message()
            &&& final(ui).info_message == old(ui).info_message
            &&& out.is_added == was_added
        },
{
    match result {
        Ok(true) => {
            ui.info_message = Some(
                if removing {
                    String::from_str("Podcast successfully removed")
                } else {
                    String::from_str("Podcast successfully added")
                },
            );
            PodcastToggleOutcome { is_added: !removing, is_loading: false }
        },
        Ok(false) => {
            ui.error_message = Some(String::from_str("Failed to add podcast"));
            PodcastToggleOutcome { is_added: was_added, is_loading: false }
        },
        Err(e) => {
            let mut text = String::from_str("Error adding podcast: ");
            let detail = e.message();
            text.append(detail.as_str());
            ui.error_message = Some(text);
            PodcastToggleOutcome { is_added: was_added, is_loading: false }
        },
    }
}

/// Whether a banner should be rendered for a message: only a present,
/// non-empty message shows.
pub fn should_show_banner(message: &Option<String>) -> (show: bool)
    ensures
        show <==> (message matches Some(m) && m@.len() > 0),
{
    match message {
        Some(m) => !m.as_str().is_empty(),
        None => false,
    }
}

} // verus!
