//! The published snapshot: one immutable bundle of playback, group and
//! favorites state per engine cycle.

use vstd::prelude::*;
use vstd::string::StrSliceExecFns;

use crate::favorites::FavoritePlaylist;
use crate::track::Track;
use crate::track::TrackInfo;
use crate::ViewMode;

verus! {

/// Everything the presentation layer may read, copied out of the engine.
#[derive(Debug)]
pub struct SpeakerState {
    pub is_playing: bool,
    pub current_volume: u16,
    pub group_names: Vec<String>,
    pub selected_group: usize,
    pub now_playing: Option<TrackInfo>,
    pub queue: Vec<Track>,
    pub current_view: ViewMode,
    pub favorites: Vec<FavoritePlaylist>,
    pub selected_favorite: usize,
}

impl SpeakerState {
    /// The display name of the selected group.
    pub fn group_name(&self) -> (r: &str)
        requires
            self.selected_group < self.group_names@.len(),
        ensures
            r@ == self.group_names@[self.selected_group as int]@,
    {
        self.group_names[self.selected_group].as_str()
    }
}

/// First queue position at or after `from` whose track carries `uri`,
/// or -1.
pub open spec fn idx_of_track_uri(queue: Seq<Track>, uri: Seq<char>, from: int) -> int
    decreases queue.len() - from,
{
    if from < 0 || from >= queue.len() {
        -1
    } else if queue[from].uri@ == uri {
        from
    } else {
        idx_of_track_uri(queue, uri, from + 1)
    }
}

proof fn lemma_idx_of_track_uri_props(queue: Seq<Track>, uri: Seq<char>, from: int)
    requires
        0 <= from,
    ensures
        idx_of_track_uri(queue, uri, from) == -1 || from <= idx_of_track_uri(queue, uri, from)
            < queue.len(),
        idx_of_track_uri(queue, uri, from) == -1 ==> forall|j: int|
            from <= j < queue.len() ==> queue[j].uri@ != uri,
        idx_of_track_uri(queue, uri, from) >= 0 ==> {
            let k = idx_of_track_uri(queue, uri, from);
            &&& queue[k].uri@ == uri
            &&& forall|j: int| from <= j < k ==> queue[j].uri@ != uri
        },
    decreases queue.len() - from,
{
    if from >= queue.len() {
    } else if queue[from].uri@ == uri {
    } else {
        lemma_idx_of_track_uri_props(queue, uri, from + 1);
    }
}

/// The queue position to highlight: the first entry playing the current
/// track's URI, nothing when idle or when the track is not queued.
pub open spec fn queue_selection_spec(st: SpeakerState) -> Option<int> {
    match st.now_playing {
        None => None,
        Some(t) => {
            let k = idx_of_track_uri(st.queue@, t.track.uri@, 0);
            if k < 0 {
                None
            } else {
                Some(k)
            }
        },
    }
}

/// Which queue entry to highlight for the snapshot's current track.
pub fn queue_selection(state: &SpeakerState) -> (r: Option<usize>)
    ensures
        ({
            let sel = queue_selection_spec(*state);
            match r {
                Some(i) => sel == Some(i as int),
                None => sel is None,
            }
        }),
{
    let t = match &state.now_playing {
        None => {
            return None;
        },
        Some(t) => t,
    };
    let n = state.queue.len();
    let mut i: usize = 0;
    while i < n && !(state.queue[i].uri == t.track.uri)
        invariant
            i <= n,
            n == state.queue@.len(),
            state.now_playing matches Some(np) && np.track.uri@ == t.track.uri@,
            forall|j: int| 0 <= j < i ==> state.queue@[j].uri@ != t.track.uri@,
        decreases n - i,
    {
        i = i + 1;
    }
    proof {
        lemma_idx_of_track_uri_props(state.queue@, t.track.uri@, 0);
        let k = idx_of_track_uri(state.queue@, t.track.uri@, 0);
        if i < n {
            if k == -1 {
                assert(state.queue@[i as int].uri@ != t.track.uri@);
            }
            if 0 <= k < i {
                assert(state.queue@[k].uri@ != t.track.uri@);
            }
            if k > i {
                assert(state.queue@[i as int].uri@ != t.track.uri@);
            }
        } else {
            if k >= 0 {
                assert(state.queue@[k].uri@ != t.track.uri@);
            }
        }
    }
    if i < n {
        Some(i)
    } else {
        None
    }
}

/// What the presentation layer holds between updates.
#[derive(Debug)]
pub enum State {
    Ready(Box<SpeakerState>),
    Connecting,
}

/// One engine-to-presentation message.
#[derive(Debug)]
pub enum Update {
    NewState(Box<SpeakerState>),
    Nop,
}

} // verus!
