//! The synchronization engine: one owner of group, selection, favorites
//! and cached playback state.
//!
//! The engine itself performs no device call. A command is routed into a
//! `CommandPlan`: the device operations to issue, in order, against the
//! selected group's coordinator. The loop around the engine executes the
//! plan, reports which commands succeeded, lets `refresh_wanted` coalesce
//! the whole batch into at most one refresh, feeds the refresh outcome
//! back through `finish_refresh`, and publishes one snapshot per wake.

use vstd::prelude::*;
use vstd::string::StringExecFns;

use crate::favorites::html_unescape;
use crate::favorites::unescape_spec;
use crate::favorites::FavoritePlaylist;
use crate::group::is_reordered_group;
use crate::group::group_display_name;
use crate::group::SpeakerGroup;
use crate::group::SpeakerInfo;
use crate::state::SpeakerState;
use crate::strutil::match_at;
use crate::strutil::starts_with_sub;
use crate::track::Track;
use crate::track::TrackInfo;
use crate::Action;
use crate::Direction;
use crate::ViewMode;

verus! {

/// Everything that can go wrong, by recovery policy: the first three abort
/// startup, the rest are logged and the loop continues.
#[derive(Debug, Clone, Copy, PartialEq, Eq, Structural)]
pub enum SonosError {
    NoDevicesFound,
    NoSpeakerDiscovered,
    TopologyQueryFailed,
    NoSelectedGroup,
    CommandFailed,
    RefreshFailed,
    FavoritesFetchFailed,
    ChannelClosed,
}

/// One operation against a device, ready to issue.
#[derive(Debug, PartialEq, Eq)]
pub enum DeviceOp {
    Play,
    Pause,
    Next,
    Previous,
    SetVolumeRelative(i16),
    ClearQueue,
    AddUriToQueue(String),
    QueueNext(String, String),
}

/// One step of a plan; a best-effort step may fail without failing the
/// command.
#[derive(Debug, PartialEq, Eq)]
pub struct PlanStep {
    pub op: DeviceOp,
    pub best_effort: bool,
}

/// What one command asks of the outside world: the coordinator to address,
/// the steps to issue in order, and whether success warrants a refresh.
#[derive(Debug)]
pub struct CommandPlan {
    pub target: Option<String>,
    pub steps: Vec<PlanStep>,
    pub refresh_on_success: bool,
}

/// The four cached playback fields as one refresh fetched them.
#[derive(Debug)]
pub struct RefreshData {
    pub is_playing: bool,
    pub volume: u16,
    pub now_playing: Option<TrackInfo>,
    pub queue: Vec<Track>,
}

/// The group index after a next-group step: one forward, wrapping to 0.
pub open spec fn next_index(i: int, n: int) -> int {
    if n <= 0 {
        0
    } else if i + 1 >= n {
        0
    } else {
        i + 1
    }
}

/// The group index after a previous-group step: one back, wrapping to the
/// last group.
pub open spec fn prev_index(i: int, n: int) -> int {
    if n <= 0 {
        0
    } else if i <= 0 {
        n - 1
    } else {
        i - 1
    }
}

/// The favorite index after one navigation step, saturating at both ends.
pub open spec fn nav_index(i: int, n: int, d: Direction) -> int {
    match d {
        Direction::Up => if i > 0 {
            i - 1
        } else {
            i
        },
        Direction::Down => if i + 1 < n {
            i + 1
        } else {
            i
        },
    }
}

/// The favorite index clamped into a list of length `n`.
pub open spec fn clamped_index(i: int, n: int) -> int {
    if n == 0 {
        0
    } else if i >= n {
        n - 1
    } else {
        i
    }
}

/// Selecting next then previous, or previous then next, returns to the
/// starting group index, for any group count.
pub proof fn lemma_group_selection_round_trip(i: int, n: int)
    requires
        0 <= i,
        0 <= n,
        n == 0 ==> i == 0,
        n > 0 ==> i < n,
    ensures
        prev_index(next_index(i, n), n) == i,
        next_index(prev_index(i, n), n) == i,
{
}

/// Previous from index 0 selects the last group; next from the last group
/// selects index 0.
pub proof fn lemma_group_selection_wraps(n: int)
    requires
        n > 0,
    ensures
        prev_index(0, n) == n - 1,
        next_index(n - 1, n) == 0,
{
}

/// Favorite navigation and clamping never produce an index at or past the
/// list length; on an empty list they stay at 0.
pub proof fn lemma_favorite_selection_in_bounds(i: int, n: int, d: Direction)
    requires
        0 <= i,
        0 <= n,
        n == 0 ==> i == 0,
        n > 0 ==> i < n,
    ensures
        n > 0 ==> 0 <= nav_index(i, n, d) < n,
        n == 0 ==> nav_index(i, n, d) == 0,
        n > 0 ==> 0 <= clamped_index(i, n) < n,
        n == 0 ==> clamped_index(i, n) == 0,
{
}

/// The entry's coordinator identifier occurs among its own members.
pub open spec fn coordinator_in_members(entry: (String, Vec<SpeakerInfo>)) -> bool {
    exists|k: int| 0 <= k < entry.1@.len() && (#[trigger] entry.1@[k].uuid@) == entry.0@
}

/// `uuid` names one of the resolved devices.
pub open spec fn device_known(devices: Seq<String>, uuid: Seq<char>) -> bool {
    exists|i: int| 0 <= i < devices.len() && devices[i]@ == uuid
}

/// The payload of the add-to-queue action: the escaped URI and metadata
/// embedded verbatim, enqueued next without clearing.
pub open spec fn add_uri_payload_spec(uri: Seq<char>, metadata: Seq<char>) -> Seq<char> {
    "<InstanceID>0</InstanceID>\n<EnqueuedURI>"@ + uri + "</EnqueuedURI>\n<EnqueuedURIMetaData>"@
        + metadata
        + "</EnqueuedURIMetaData>\n<DesiredFirstTrackNumberEnqueued>0</DesiredFirstTrackNumberEnqueued>\n<EnqueueAsNext>1</EnqueueAsNext>"@
}

fn add_uri_payload(uri: &str, metadata: &str) -> (r: String)
    ensures
        r@ == add_uri_payload_spec(uri@, metadata@),
{
    let mut out = "<InstanceID>0</InstanceID>\n<EnqueuedURI>".to_owned();
    out.append(uri);
    out.append("</EnqueuedURI>\n<EnqueuedURIMetaData>");
    out.append(metadata);
    out.append(
        "</EnqueuedURIMetaData>\n<DesiredFirstTrackNumberEnqueued>0</DesiredFirstTrackNumberEnqueued>\n<EnqueueAsNext>1</EnqueueAsNext>",
    );
    proof {
        assert(out@ =~= add_uri_payload_spec(uri@, metadata@));
    }
    out
}

/// A plan that touches no device and asks for no refresh.
pub open spec fn is_local_plan(p: CommandPlan) -> bool {
    &&& p.target is None
    &&& p.steps@.len() == 0
    &&& !p.refresh_on_success
}

/// A plan issuing exactly one operation against coordinator `u`, with a
/// refresh owed on success.
pub open spec fn is_single_op_plan(p: CommandPlan, u: Seq<char>, op: DeviceOp) -> bool {
    &&& p.target matches Some(t) && t@ == u
    &&& p.steps@.len() == 1
    &&& p.steps@[0].op == op
    &&& !p.steps@[0].best_effort
    &&& p.refresh_on_success
}

/// The plan for playing favorite `fav` on coordinator `u`: a best-effort
/// queue clear, then either one add-to-queue (the escaped payload) and one
/// play for a container URI, or one queue-next (unescaped) and one next
/// for a single track.
pub open spec fn is_play_favorite_plan(p: CommandPlan, u: Seq<char>, fav: FavoritePlaylist) -> bool {
    let uri_u = unescape_spec(fav.uri@);
    let md_u = unescape_spec(fav.metadata@);
    &&& p.target matches Some(t) && t@ == u
    &&& p.refresh_on_success
    &&& p.steps@.len() == 3
    &&& p.steps@[0].op == DeviceOp::ClearQueue
    &&& p.steps@[0].best_effort
    &&& !p.steps@[1].best_effort
    &&& !p.steps@[2].best_effort
    &&& if match_at(uri_u, "x-rincon-cpcontainer:"@, 0) {
        &&& p.steps@[1].op matches DeviceOp::AddUriToQueue(pl) && pl@ == add_uri_payload_spec(
            fav.uri@,
            fav.metadata@,
        )
        &&& p.steps@[2].op == DeviceOp::Play
    } else {
        &&& p.steps@[1].op matches DeviceOp::QueueNext(qu, qm) && qu@ == uri_u && qm@ == md_u
        &&& p.steps@[2].op == DeviceOp::Next
    }
}

/// The engine's state: resolved device identifiers, the group model with
/// its selection, the favorites catalog with its selection, the view mode,
/// and the cached playback snapshot fields.
pub struct SonosService {
    pub devices: Vec<String>,
    pub groups: Vec<SpeakerGroup>,
    pub selected_group: usize,
    pub current_view: ViewMode,
    pub favorites: Vec<FavoritePlaylist>,
    pub selected_favorite: usize,
    pub cached_is_playing: bool,
    pub cached_volume: u16,
    pub cached_now_playing: Option<TrackInfo>,
    pub cached_queue: Vec<Track>,
}

/// The four cached playback fields agree.
pub open spec fn same_cache(pre: SonosService, post: SonosService) -> bool {
    &&& post.cached_is_playing == pre.cached_is_playing
    &&& post.cached_volume == pre.cached_volume
    &&& post.cached_now_playing == pre.cached_now_playing
    &&& post.cached_queue == pre.cached_queue
}

/// Everything but the group selection agrees.
pub open spec fn same_but_group_selection(pre: SonosService, post: SonosService) -> bool {
    &&& post.devices == pre.devices
    &&& post.groups == pre.groups
    &&& post.current_view == pre.current_view
    &&& post.favorites == pre.favorites
    &&& post.selected_favorite == pre.selected_favorite
    &&& same_cache(pre, post)
}

/// Everything but the view mode agrees.
pub open spec fn same_but_view(pre: SonosService, post: SonosService) -> bool {
    &&& post.devices == pre.devices
    &&& post.groups == pre.groups
    &&& post.selected_group == pre.selected_group
    &&& post.favorites == pre.favorites
    &&& post.selected_favorite == pre.selected_favorite
    &&& same_cache(pre, post)
}

/// Everything but the favorite selection agrees.
pub open spec fn same_but_favorite_selection(pre: SonosService, post: SonosService) -> bool {
    &&& post.devices == pre.devices
    &&& post.groups == pre.groups
    &&& post.selected_group == pre.selected_group
    &&& post.current_view == pre.current_view
    &&& post.favorites == pre.favorites
    &&& same_cache(pre, post)
}

/// Everything but the cached playback fields agrees.
pub open spec fn same_but_cache(pre: SonosService, post: SonosService) -> bool {
    &&& post.devices == pre.devices
    &&& post.groups == pre.groups
    &&& post.selected_group == pre.selected_group
    &&& post.current_view == pre.current_view
    &&& post.favorites == pre.favorites
    &&& post.selected_favorite == pre.selected_favorite
}

/// A transport or volume command: the state is untouched; with a
/// coordinator the plan is the single operation, without one the command
/// fails.
pub open spec fn transport_ensures(
    pre: SonosService,
    post: SonosService,
    r: Result<CommandPlan, SonosError>,
    op: DeviceOp,
) -> bool {
    &&& post == pre
    &&& match pre.coordinator_spec() {
        Some(u) => r matches Ok(p) && is_single_op_plan(p, u, op),
        None => r matches Err(e) && e == SonosError::NoSelectedGroup,
    }
}

/// What routing one command does to the engine state and hands back.
pub open spec fn command_ensures(
    pre: SonosService,
    post: SonosService,
    r: Result<CommandPlan, SonosError>,
    cmd: Action,
) -> bool {
    match cmd {
        Action::Play => transport_ensures(pre, post, r, DeviceOp::Play),
        Action::Pause => transport_ensures(pre, post, r, DeviceOp::Pause),
        Action::Next => transport_ensures(pre, post, r, DeviceOp::Next),
        Action::Prev => transport_ensures(pre, post, r, DeviceOp::Previous),
        Action::VolAdjust(v) => transport_ensures(pre, post, r, DeviceOp::SetVolumeRelative(v)),
        Action::NextSpeaker => {
            &&& post.selected_group as int == next_index(
                pre.selected_group as int,
                pre.groups@.len() as int,
            )
            &&& same_but_group_selection(pre, post)
            &&& r matches Ok(p) && is_local_plan(p)
        },
        Action::PrevSpeaker => {
            &&& post.selected_group as int == prev_index(
                pre.selected_group as int,
                pre.groups@.len() as int,
            )
            &&& same_but_group_selection(pre, post)
            &&& r matches Ok(p) && is_local_plan(p)
        },
        Action::SwitchView(vm) => {
            &&& post.current_view == vm
            &&& same_but_view(pre, post)
            &&& r matches Ok(p) && is_local_plan(p)
        },
        Action::NavigateFavorites(d) => {
            &&& post.selected_favorite as int == nav_index(
                pre.selected_favorite as int,
                pre.favorites@.len() as int,
                d,
            )
            &&& same_but_favorite_selection(pre, post)
            &&& r matches Ok(p) && is_local_plan(p)
        },
        Action::PlayFavorite(i) => {
            &&& post == pre
            &&& if (i as int) < pre.favorites@.len() {
                match pre.coordinator_spec() {
                    Some(u) => r matches Ok(p) && is_play_favorite_plan(
                        p,
                        u,
                        pre.favorites@[i as int],
                    ),
                    None => r matches Err(e) && e == SonosError::NoSelectedGroup,
                }
            } else {
                r matches Ok(p) && is_local_plan(p)
            }
        },
        Action::Nop => {
            &&& post == pre
            &&& r matches Ok(p) && is_local_plan(p)
        },
    }
}

/// `post` and `plans` are what routing `cmds` one after another from `pre`
/// produces.
pub open spec fn batch_rel(
    pre: SonosService,
    cmds: Seq<Action>,
    post: SonosService,
    plans: Seq<Result<CommandPlan, SonosError>>,
) -> bool
    decreases cmds.len(),
{
    if cmds.len() == 0 {
        post == pre && plans.len() == 0
    } else {
        &&& plans.len() == cmds.len()
        &&& exists|mid: SonosService|
            {
                &&& #[trigger] command_ensures(pre, mid, plans[0], cmds[0])
                &&& batch_rel(
                    mid,
                    cmds.subrange(1, cmds.len() as int),
                    post,
                    plans.subrange(1, plans.len() as int),
                )
            }
    }
}

proof fn lemma_batch_rel_snoc(
    pre: SonosService,
    cmds: Seq<Action>,
    mid: SonosService,
    plans: Seq<Result<CommandPlan, SonosError>>,
    cmd: Action,
    post: SonosService,
    plan: Result<CommandPlan, SonosError>,
)
    requires
        batch_rel(pre, cmds, mid, plans),
        command_ensures(mid, post, plan, cmd),
    ensures
        batch_rel(pre, cmds + seq![cmd], post, plans + seq![plan]),
    decreases cmds.len(),
{
    let cmds2 = cmds + seq![cmd];
    let plans2 = plans + seq![plan];
    if cmds.len() == 0 {
        assert(cmds2.subrange(1, cmds2.len() as int) =~= Seq::<Action>::empty());
        assert(plans2.subrange(1, plans2.len() as int) =~= Seq::<
            Result<CommandPlan, SonosError>,
        >::empty());
        assert(command_ensures(pre, post, plans2[0], cmds2[0]));
        assert(batch_rel(post, cmds2.subrange(1, cmds2.len() as int), post, plans2.subrange(1, plans2.len() as int)));
    } else {
        let mid0 = choose|mid0: SonosService|
            {
                &&& #[trigger] command_ensures(pre, mid0, plans[0], cmds[0])
                &&& batch_rel(
                    mid0,
                    cmds.subrange(1, cmds.len() as int),
                    mid,
                    plans.subrange(1, plans.len() as int),
                )
            };
        lemma_batch_rel_snoc(
            mid0,
            cmds.subrange(1, cmds.len() as int),
            mid,
            plans.subrange(1, plans.len() as int),
            cmd,
            post,
            plan,
        );
        assert(cmds.subrange(1, cmds.len() as int) + seq![cmd] =~= cmds2.subrange(
            1,
            cmds2.len() as int,
        ));
        assert(plans.subrange(1, plans.len() as int) + seq![plan] =~= plans2.subrange(
            1,
            plans2.len() as int,
        ));
        assert(command_ensures(pre, mid0, plans2[0], cmds2[0]));
    }
}

fn local_plan() -> (p: CommandPlan)
    ensures
        is_local_plan(p),
{
    CommandPlan { target: None, steps: Vec::new(), refresh_on_success: false }
}

impl SonosService {
    /// The selection invariants: a selected index stays inside its list,
    /// and rests at 0 while the list is empty.
    pub open spec fn wf(&self) -> bool {
        &&& (self.selected_group < self.groups@.len() || (self.groups@.len() == 0
            && self.selected_group == 0))
        &&& (self.selected_favorite < self.favorites@.len() || (self.favorites@.len() == 0
            && self.selected_favorite == 0))
    }

    /// The coordinator the engine would address right now: the selected
    /// group's coordinator, provided that device was resolved.
    pub open spec fn coordinator_spec(&self) -> Option<Seq<char>> {
        if self.selected_group < self.groups@.len() && device_known(
            self.devices@,
            self.groups@[self.selected_group as int].coordinator@,
        ) {
            Some(self.groups@[self.selected_group as int].coordinator@)
        } else {
            None
        }
    }

    /// A fresh engine: nothing resolved, nothing cached, queue view.
    pub fn new() -> (s: Self)
        ensures
            s.devices@.len() == 0,
            s.groups@.len() == 0,
            s.selected_group == 0,
            s.current_view == ViewMode::Queue,
            s.favorites@.len() == 0,
            s.selected_favorite == 0,
            s.cached_is_playing == false,
            s.cached_volume == 0,
            s.cached_now_playing is None,
            s.cached_queue@.len() == 0,
            s.wf(),
    {
        SonosService {
            devices: Vec::new(),
            groups: Vec::new(),
            selected_group: 0,
            current_view: ViewMode::Queue,
            favorites: Vec::new(),
            selected_favorite: 0,
            cached_is_playing: false,
            cached_volume: 0,
            cached_now_playing: None,
            cached_queue: Vec::new(),
        }
    }

    /// Adopt the identifiers of the resolved devices. An empty resolution
    /// is the one fatal startup condition here.
    pub fn register_devices(&mut self, uuids: Vec<String>) -> (r: Result<(), SonosError>)
        ensures
            match r {
                Ok(_) => {
                    &&& uuids@.len() > 0
                    &&& final (self).devices == uuids
                    &&& final (self).groups == old(self).groups
                    &&& final (self).selected_group == old(self).selected_group
                    &&& final (self).current_view == old(self).current_view
                    &&& final (self).favorites == old(self).favorites
                    &&& final (self).selected_favorite == old(self).selected_favorite
                    &&& same_cache(*old(self), *final (self))
                },
                Err(e) => {
                    &&& e == SonosError::NoDevicesFound
                    &&& uuids@.len() == 0
                    &&& *final (self) == *old(self)
                },
            },
            old(self).wf() ==> final (self).wf(),
    {
        if uuids.len() == 0 {
            Err(SonosError::NoDevicesFound)
        } else {
            self.devices = uuids;
            Ok(())
        }
    }

    /// The device to query for topology and favorites: the first resolved
    /// one, an arbitrary but fixed choice.
    pub fn topology_source(&self) -> (r: Result<String, SonosError>)
        ensures
            match r {
                Ok(u) => self.devices@.len() > 0 && u@ == self.devices@[0]@,
                Err(e) => e == SonosError::NoSpeakerDiscovered && self.devices@.len() == 0,
            },
    {
        if self.devices.len() == 0 {
            Err(SonosError::NoSpeakerDiscovered)
        } else {
            Ok(self.devices[0].clone())
        }
    }

    /// Adopt a reported topology: one group per entry, the coordinator
    /// moved to the front of its member list. Each coordinator must be
    /// among its own members; the group selection is kept if still valid,
    /// else reset.
    pub fn install_groups(&mut self, topology: Vec<(String, Vec<SpeakerInfo>)>)
        requires
            forall|i: int|
                0 <= i < topology@.len() ==> coordinator_in_members(#[trigger] topology@[i]),
        ensures
            final (self).groups@.len() == topology@.len(),
            forall|i: int|
                0 <= i < topology@.len() ==> is_reordered_group(
                    #[trigger] final (self).groups@[i],
                    topology@[i].0@,
                    topology@[i].1@,
                ),
            final (self).selected_group == if (old(self).selected_group as int) < topology@.len() {
                old(self).selected_group
            } else {
                0
            },
            final (self).devices == old(self).devices,
            final (self).current_view == old(self).current_view,
            final (self).favorites == old(self).favorites,
            final (self).selected_favorite == old(self).selected_favorite,
            same_cache(*old(self), *final (self)),
            old(self).wf() ==> final (self).wf(),
    {
        let n = topology.len();
        let mut gs: Vec<SpeakerGroup> = Vec::new();
        let mut i: usize = 0;
        while i < n
            invariant
                i <= n,
                n == topology@.len(),
                gs@.len() == i,
                forall|j: int|
                    0 <= j < i ==> is_reordered_group(
                        #[trigger] gs@[j],
                        topology@[j].0@,
                        topology@[j].1@,
                    ),
                forall|j: int|
                    0 <= j < topology@.len() ==> coordinator_in_members(#[trigger] topology@[j]),
            decreases n - i,
        {
            let entry = &topology[i];
            let coordinator = entry.0.clone();
            let members = clone_speakers(&entry.1);
            let g = SpeakerGroup::new(coordinator, members);
            gs.push(g);
            i = i + 1;
        }
        self.groups = gs;
        if !(self.selected_group < self.groups.len()) {
            self.selected_group = 0;
        }
    }

    /// Replace the favorites catalog wholesale, clamping the favorite
    /// selection into the new list.
    pub fn set_favorites(&mut self, favs: Vec<FavoritePlaylist>)
        ensures
            final (self).favorites == favs,
            final (self).selected_favorite as int == clamped_index(
                old(self).selected_favorite as int,
                favs@.len() as int,
            ),
            final (self).devices == old(self).devices,
            final (self).groups == old(self).groups,
            final (self).selected_group == old(self).selected_group,
            final (self).current_view == old(self).current_view,
            same_cache(*old(self), *final (self)),
            old(self).wf() ==> final (self).wf(),
    {
        self.favorites = favs;
        if self.selected_favorite >= self.favorites.len() {
            if self.favorites.len() == 0 {
                self.selected_favorite = 0;
            } else {
                self.selected_favorite = self.favorites.len() - 1;
            }
        }
    }

    /// Step the group selection forward, wrapping to the first group.
    pub fn select_next_group(&mut self)
        ensures
            final (self).selected_group as int == next_index(
                old(self).selected_group as int,
                old(self).groups@.len() as int,
            ),
            same_but_group_selection(*old(self), *final (self)),
            old(self).wf() ==> final (self).wf(),
    {
        if self.groups.len() == 0 {
            self.selected_group = 0;
        } else if self.selected_group >= self.groups.len() - 1 {
            self.selected_group = 0;
        } else {
            self.selected_group = self.selected_group + 1;
        }
    }

    /// Step the group selection back, wrapping to the last group.
    pub fn select_prev_group(&mut self)
        ensures
            final (self).selected_group as int == prev_index(
                old(self).selected_group as int,
                old(self).groups@.len() as int,
            ),
            same_but_group_selection(*old(self), *final (self)),
            old(self).wf() ==> final (self).wf(),
    {
        if self.groups.len() == 0 {
            self.selected_group = 0;
        } else if self.selected_group == 0 {
            self.selected_group = self.groups.len() - 1;
        } else {
            self.selected_group = self.selected_group - 1;
        }
    }

    /// Move the favorite selection one step, saturating at both ends.
    pub fn navigate_favorites(&mut self, d: Direction)
        ensures
            final (self).selected_favorite as int == nav_index(
                old(self).selected_favorite as int,
                old(self).favorites@.len() as int,
                d,
            ),
            same_but_favorite_selection(*old(self), *final (self)),
            old(self).wf() ==> final (self).wf(),
    {
        match d {
            Direction::Up => {
                if self.selected_favorite > 0 {
                    self.selected_favorite = self.selected_favorite - 1;
                }
            },
            Direction::Down => {
                if self.favorites.len() > 0 && self.selected_favorite < self.favorites.len() - 1 {
                    self.selected_favorite = self.selected_favorite + 1;
                }
            },
        }
    }

    /// The identifier of the device a command would be sent to, when the
    /// selected group exists and its coordinator was resolved.
    pub fn current_coordinator(&self) -> (r: Option<String>)
        ensures
            match r {
                Some(u) => self.coordinator_spec() matches Some(c) && u@ == c,
                None => self.coordinator_spec() is None,
            },
    {
        if self.selected_group >= self.groups.len() {
            return None;
        }
        let c = &self.groups[self.selected_group].coordinator;
        let n = self.devices.len();
        let mut i: usize = 0;
        while i < n && !(self.devices[i] == *c)
            invariant
                i <= n,
                n == self.devices@.len(),
                self.selected_group < self.groups@.len(),
                c == &self.groups@[self.selected_group as int].coordinator,
                forall|j: int| 0 <= j < i ==> self.devices@[j]@ != c@,
            decreases n - i,
        {
            i = i + 1;
        }
        if i < n {
            assert(device_known(self.devices@, c@));
            Some(c.clone())
        } else {
            assert(!device_known(self.devices@, c@));
            None
        }
    }

    fn transport_plan(&self, op: DeviceOp) -> (r: Result<CommandPlan, SonosError>)
        ensures
            match self.coordinator_spec() {
                Some(u) => r matches Ok(p) && is_single_op_plan(p, u, op),
                None => r matches Err(e) && e == SonosError::NoSelectedGroup,
            },
    {
        match self.current_coordinator() {
            Some(u) => {
                let mut steps: Vec<PlanStep> = Vec::new();
                steps.push(PlanStep { op, best_effort: false });
                Ok(CommandPlan { target: Some(u), steps, refresh_on_success: true })
            },
            None => Err(SonosError::NoSelectedGroup),
        }
    }

    fn play_favorite(&self, index: usize) -> (r: Result<CommandPlan, SonosError>)
        ensures
            if (index as int) < self.favorites@.len() {
                match self.coordinator_spec() {
                    Some(u) => r matches Ok(p) && is_play_favorite_plan(
                        p,
                        u,
                        self.favorites@[index as int],
                    ),
                    None => r matches Err(e) && e == SonosError::NoSelectedGroup,
                }
            } else {
                r matches Ok(p) && is_local_plan(p)
            },
    {
        if index >= self.favorites.len() {
            return Ok(local_plan());
        }
        let u = match self.current_coordinator() {
            Some(u) => u,
            None => {
                return Err(SonosError::NoSelectedGroup);
            },
        };
        let fav = &self.favorites[index];
        let unescaped_uri = html_unescape(fav.uri.as_str());
        let unescaped_metadata = html_unescape(fav.metadata.as_str());
        let mut steps: Vec<PlanStep> = Vec::new();
        steps.push(PlanStep { op: DeviceOp::ClearQueue, best_effort: true });
        if starts_with_sub(unescaped_uri.as_str(), "x-rincon-cpcontainer:") {
            let payload = add_uri_payload(fav.uri.as_str(), fav.metadata.as_str());
            steps.push(PlanStep { op: DeviceOp::AddUriToQueue(payload), best_effort: false });
            steps.push(PlanStep { op: DeviceOp::Play, best_effort: false });
        } else {
            steps.push(
                PlanStep {
                    op: DeviceOp::QueueNext(unescaped_uri, unescaped_metadata),
                    best_effort: false,
                },
            );
            steps.push(PlanStep { op: DeviceOp::Next, best_effort: false });
        }
        Ok(CommandPlan { target: Some(u), steps, refresh_on_success: true })
    }

    /// Route one command: mutate local selection state, or plan the device
    /// operations the command asks for.
    pub fn handle_command(&mut self, cmd: &Action) -> (r: Result<CommandPlan, SonosError>)
        ensures
            command_ensures(*old(self), *final (self), r, *cmd),
            old(self).wf() ==> final (self).wf(),
    {
        match *cmd {
            Action::Play => self.transport_plan(DeviceOp::Play),
            Action::Pause => self.transport_plan(DeviceOp::Pause),
            Action::Next => self.transport_plan(DeviceOp::Next),
            Action::Prev => self.transport_plan(DeviceOp::Previous),
            Action::VolAdjust(v) => self.transport_plan(DeviceOp::SetVolumeRelative(v)),
            Action::NextSpeaker => {
                self.select_next_group();
                Ok(local_plan())
            },
            Action::PrevSpeaker => {
                self.select_prev_group();
                Ok(local_plan())
            },
            Action::SwitchView(vm) => {
                self.current_view = vm;
                Ok(local_plan())
            },
            Action::NavigateFavorites(d) => {
                self.navigate_favorites(d);
                Ok(local_plan())
            },
            Action::PlayFavorite(i) => self.play_favorite(i),
            Action::Nop => Ok(local_plan()),
        }
    }

    /// Route a whole batch of commands drained in one wake, in order.
    pub fn run_batch(&mut self, cmds: &Vec<Action>) -> (plans: Vec<
        Result<CommandPlan, SonosError>,
    >)
        ensures
            batch_rel(*old(self), cmds@, *final (self), plans@),
            old(self).wf() ==> final (self).wf(),
    {
        let ghost pre = *self;
        let mut plans: Vec<Result<CommandPlan, SonosError>> = Vec::new();
        let n = cmds.len();
        let mut i: usize = 0;
        proof {
            assert(cmds@.subrange(0, 0) =~= Seq::<Action>::empty());
        }
        while i < n
            invariant
                i <= n,
                n == cmds@.len(),
                plans@.len() == i,
                batch_rel(pre, cmds@.subrange(0, i as int), *self, plans@),
                pre.wf() ==> self.wf(),
            decreases n - i,
        {
            let ghost mid = *self;
            let ghost old_plans = plans@;
            let r = self.handle_command(&cmds[i]);
            proof {
                lemma_batch_rel_snoc(
                    pre,
                    cmds@.subrange(0, i as int),
                    mid,
                    old_plans,
                    cmds@[i as int],
                    *self,
                    r,
                );
                assert(cmds@.subrange(0, i + 1) =~= cmds@.subrange(0, i as int) + seq![
                    cmds@[i as int],
                ]);
            }
            plans.push(r);
            proof {
                assert(plans@ =~= old_plans + seq![r]);
            }
            i = i + 1;
        }
        proof {
            assert(cmds@.subrange(0, n as int) =~= cmds@);
        }
        plans
    }

    /// The device a timer-driven refresh must poll.
    pub fn refresh_target(&self) -> (r: Result<String, SonosError>)
        ensures
            match r {
                Ok(u) => self.coordinator_spec() matches Some(c) && u@ == c,
                Err(e) => e == SonosError::NoSelectedGroup && self.coordinator_spec() is None,
            },
    {
        match self.current_coordinator() {
            Some(u) => Ok(u),
            None => Err(SonosError::NoSelectedGroup),
        }
    }

    /// Adopt the outcome of one refresh. All four cached fields change
    /// together on success; a failed refresh leaves every one of them
    /// exactly as it was.
    pub fn finish_refresh(&mut self, outcome: Option<RefreshData>)
        ensures
            match outcome {
                None => same_cache(*old(self), *final (self)),
                Some(d) => {
                    &&& final (self).cached_is_playing == d.is_playing
                    &&& final (self).cached_volume == d.volume
                    &&& final (self).cached_now_playing == d.now_playing
                    &&& final (self).cached_queue == d.queue
                },
            },
            same_but_cache(*old(self), *final (self)),
            old(self).wf() ==> final (self).wf(),
    {
        match outcome {
            Some(d) => {
                self.cached_is_playing = d.is_playing;
                self.cached_volume = d.volume;
                self.cached_now_playing = d.now_playing;
                self.cached_queue = d.queue;
            },
            None => {},
        }
    }

    /// Assemble the snapshot published at the end of a cycle: the cached
    /// playback fields, the group names with the selection, the favorites
    /// with theirs.
    pub fn build_state(&self) -> (r: SpeakerState)
        ensures
            r.is_playing == self.cached_is_playing,
            r.current_volume == self.cached_volume,
            r.selected_group == self.selected_group,
            r.now_playing == self.cached_now_playing,
            r.queue@ == self.cached_queue@,
            r.current_view == self.current_view,
            r.favorites@ == self.favorites@,
            r.selected_favorite == self.selected_favorite,
            r.group_names@.len() == self.groups@.len(),
            forall|i: int|
                0 <= i < self.groups@.len() ==> (#[trigger] r.group_names@[i])@
                    == group_display_name(self.groups@[i]),
    {
        let n = self.groups.len();
        let mut names: Vec<String> = Vec::new();
        let mut i: usize = 0;
        while i < n
            invariant
                i <= n,
                n == self.groups@.len(),
                names@.len() == i,
                forall|j: int|
                    0 <= j < i ==> (#[trigger] names@[j])@ == group_display_name(self.groups@[j]),
            decreases n - i,
        {
            names.push(self.groups[i].name());
            i = i + 1;
        }
        SpeakerState {
            is_playing: self.cached_is_playing,
            current_volume: self.cached_volume,
            group_names: names,
            selected_group: self.selected_group,
            now_playing: match &self.cached_now_playing {
                Some(t) => Some(t.clone()),
                None => None,
            },
            queue: clone_tracks(&self.cached_queue),
            current_view: self.current_view,
            favorites: clone_favorites(&self.favorites),
            selected_favorite: self.selected_favorite,
        }
    }
}

/// Whether any command of a drained batch both asked for a refresh and had
/// its plan carried out: the whole batch then gets one refresh, never more.
pub fn refresh_wanted(
    plans: &Vec<Result<CommandPlan, SonosError>>,
    succeeded: &Vec<bool>,
) -> (r: bool)
    requires
        plans@.len() == succeeded@.len(),
    ensures
        r == exists|k: int|
            0 <= k < plans@.len() && ((#[trigger] plans@[k]) matches Ok(p) && p.refresh_on_success
                && succeeded@[k]),
{
    let n = plans.len();
    let mut i: usize = 0;
    while i < n
        invariant
            i <= n,
            n == plans@.len(),
            plans@.len() == succeeded@.len(),
            forall|k: int|
                0 <= k < i ==> !((#[trigger] plans@[k]) matches Ok(p) && p.refresh_on_success
                    && succeeded@[k]),
        decreases n - i,
    {
        if let Ok(p) = &plans[i] {
            if p.refresh_on_success && succeeded[i] {
                return true;
            }
        }
        i = i + 1;
    }
    false
}

fn clone_speakers(v: &Vec<SpeakerInfo>) -> (r: Vec<SpeakerInfo>)
    ensures
        r@ == v@,
{
    let n = v.len();
    let mut r: Vec<SpeakerInfo> = Vec::new();
    let mut i: usize = 0;
    while i < n
        invariant
            i <= n,
            n == v@.len(),
            r@ == v@.subrange(0, i as int),
        decreases n - i,
    {
        r.push(v[i].clone());
        proof {
            assert(v@.subrange(0, i + 1) =~= v@.subrange(0, i as int) + seq![v@[i as int]]);
        }
        i = i + 1;
    }
    proof {
        assert(v@.subrange(0, n as int) =~= v@);
    }
    r
}

fn clone_tracks(v: &Vec<Track>) -> (r: Vec<Track>)
    ensures
        r@ == v@,
{
    let n = v.len();
    let mut r: Vec<Track> = Vec::new();
    let mut i: usize = 0;
    while i < n
        invariant
            i <= n,
            n == v@.len(),
            r@ == v@.subrange(0, i as int),
        decreases n - i,
    {
        r.push(v[i].clone());
        proof {
            assert(v@.subrange(0, i + 1) =~= v@.subrange(0, i as int) + seq![v@[i as int]]);
        }
        i = i + 1;
    }
    proof {
        assert(v@.subrange(0, n as int) =~= v@);
    }
    r
}

fn clone_favorites(v: &Vec<FavoritePlaylist>) -> (r: Vec<FavoritePlaylist>)
    ensures
        r@ == v@,
{
    let n = v.len();
    let mut r: Vec<FavoritePlaylist> = Vec::new();
    let mut i: usize = 0;
    while i < n
        invariant
            i <= n,
            n == v@.len(),
            r@ == v@.subrange(0, i as int),
        decreases n - i,
    {
        r.push(v[i].clone());
        proof {
            assert(v@.subrange(0, i + 1) =~= v@.subrange(0, i as int) + seq![v@[i as int]]);
        }
        i = i + 1;
    }
    proof {
        assert(v@.subrange(0, n as int) =~= v@);
    }
    r
}

} // verus!
