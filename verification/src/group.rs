//! Groups of players: a coordinator and its ordered members.
//!
//! A group stores device identifiers, never device handles; the handle
//! arena outside the library is keyed by the same identifiers.

use vstd::prelude::*;
use vstd::string::StrSliceExecFns;
use vstd::string::StringExecFns;

verus! {

/// Identifier and display name of one player, as the topology reports it.
#[derive(Debug)]
pub struct SpeakerInfo {
    pub uuid: String,
    pub name: String,
}

impl Clone for SpeakerInfo {
    fn clone(&self) -> (r: Self)
        ensures
            r == *self,
    {
        SpeakerInfo { uuid: self.uuid.clone(), name: self.name.clone() }
    }
}

/// First index at or after `from` whose entry carries `uuid`, or -1.
pub open spec fn idx_of_uuid(speakers: Seq<SpeakerInfo>, uuid: Seq<char>, from: int) -> int
    decreases speakers.len() - from,
{
    if from < 0 || from >= speakers.len() {
        -1
    } else if speakers[from].uuid@ == uuid {
        from
    } else {
        idx_of_uuid(speakers, uuid, from + 1)
    }
}

/// What `idx_of_uuid` returns: the first carrier of `uuid`, if any.
pub proof fn lemma_idx_of_uuid_props(speakers: Seq<SpeakerInfo>, uuid: Seq<char>, from: int)
    requires
        0 <= from,
    ensures
        idx_of_uuid(speakers, uuid, from) == -1 || from <= idx_of_uuid(speakers, uuid, from)
            < speakers.len(),
        idx_of_uuid(speakers, uuid, from) == -1 ==> forall|j: int|
            from <= j < speakers.len() ==> speakers[j].uuid@ != uuid,
        idx_of_uuid(speakers, uuid, from) >= 0 ==> {
            let k = idx_of_uuid(speakers, uuid, from);
            &&& speakers[k].uuid@ == uuid
            &&& forall|j: int| from <= j < k ==> speakers[j].uuid@ != uuid
        },
    decreases speakers.len() - from,
{
    if from >= speakers.len() {
    } else if speakers[from].uuid@ == uuid {
    } else {
        lemma_idx_of_uuid_props(speakers, uuid, from + 1);
    }
}

/// One group as the topology reports it, with the coordinator moved to
/// the front of the member list so that its name is displayed first.
pub struct SpeakerGroup {
    pub coordinator: String,
    pub speakers: Vec<SpeakerInfo>,
}

/// `g` is `members` with the first carrier of `coordinator` moved to the
/// front and everything else in its original order.
pub open spec fn is_reordered_group(
    g: SpeakerGroup,
    coordinator: Seq<char>,
    members: Seq<SpeakerInfo>,
) -> bool {
    let k = idx_of_uuid(members, coordinator, 0);
    &&& g.coordinator@ == coordinator
    &&& 0 <= k < members.len()
    &&& g.speakers@ == seq![members[k]] + members.subrange(0, k) + members.subrange(
        k + 1,
        members.len() as int,
    )
}

impl SpeakerGroup {
    /// Build a group from a coordinator identifier and the member list the
    /// device reported. The coordinator must be among its own members; a
    /// report violating that is rejected before this is called.
    pub fn new(coordinator: String, speakers: Vec<SpeakerInfo>) -> (g: Self)
        requires
            exists|k: int| 0 <= k < speakers@.len() && speakers@[k].uuid@ == coordinator@,
        ensures
            is_reordered_group(g, coordinator@, speakers@),
    {
        let n = speakers.len();
        let mut k: usize = 0;
        while k < n && !(speakers[k].uuid == coordinator)
            invariant
                k <= n,
                n == speakers@.len(),
                exists|j: int| 0 <= j < speakers@.len() && speakers@[j].uuid@ == coordinator@,
                forall|j: int| 0 <= j < k ==> speakers@[j].uuid@ != coordinator@,
            decreases n - k,
        {
            k = k + 1;
        }
        proof {
            if k == n {
                let j = choose|j: int|
                    0 <= j < speakers@.len() && speakers@[j].uuid@ == coordinator@;
                assert(speakers@[j].uuid@ != coordinator@);
            }
            lemma_idx_of_uuid_props(speakers@, coordinator@, 0);
            let ki = idx_of_uuid(speakers@, coordinator@, 0);
            if ki == -1 {
                assert(speakers@[k as int].uuid@ != coordinator@);
            }
            if ki < k {
                assert(speakers@[ki].uuid@ != coordinator@);
            }
            if ki > k {
                assert(speakers@[k as int].uuid@ != coordinator@);
            }
        }
        let mut ordered: Vec<SpeakerInfo> = Vec::new();
        ordered.push(speakers[k].clone());
        let mut i: usize = 0;
        while i < n
            invariant
                i <= n,
                k < n,
                n == speakers@.len(),
                i <= k ==> ordered@ == seq![speakers@[k as int]] + speakers@.subrange(0, i as int),
                i > k ==> ordered@ == seq![speakers@[k as int]] + speakers@.subrange(0, k as int)
                    + speakers@.subrange(k + 1, i as int),
            decreases n - i,
        {
            if i != k {
                let ghost before = ordered@;
                ordered.push(speakers[i].clone());
                proof {
                    if i < k {
                        assert(speakers@.subrange(0, i + 1) =~= speakers@.subrange(0, i as int)
                            + seq![speakers@[i as int]]);
                        assert(before + seq![speakers@[i as int]] =~= seq![speakers@[k as int]]
                            + speakers@.subrange(0, i + 1));
                    } else {
                        assert(speakers@.subrange(k + 1, i + 1) =~= speakers@.subrange(
                            k + 1,
                            i as int,
                        ) + seq![speakers@[i as int]]);
                        assert(before + seq![speakers@[i as int]] =~= seq![speakers@[k as int]]
                            + speakers@.subrange(0, k as int) + speakers@.subrange(k + 1, i + 1));
                    }
                }
            } else {
                proof {
                    if i == k {
                        assert(speakers@.subrange(k + 1, k + 1) =~= Seq::<SpeakerInfo>::empty());
                        assert(ordered@ + Seq::<SpeakerInfo>::empty() =~= ordered@);
                        assert(ordered@ =~= seq![speakers@[k as int]] + speakers@.subrange(
                            0,
                            k as int,
                        ) + speakers@.subrange(k + 1, k + 1));
                    }
                }
            }
            i = i + 1;
        }
        SpeakerGroup { coordinator, speakers: ordered }
    }

    /// The group's display name: member names joined by " + ", the
    /// coordinator's first.
    pub fn name(&self) -> (r: String)
        ensures
            r@ == group_display_name(*self),
    {
        let ghost names = self.speakers@.map_values(|s: SpeakerInfo| s.name@);
        let n = self.speakers.len();
        let mut out = String::new();
        if n == 0 {
            return out;
        }
        out.append(self.speakers[0].name.as_str());
        proof {
            assert(names[0] == self.speakers@[0].name@);
            assert(Seq::<char>::empty() + self.speakers@[0].name@ =~= out@);
        }
        let mut i: usize = 1;
        while i < n
            invariant
                1 <= i <= n,
                n == self.speakers@.len(),
                names == self.speakers@.map_values(|s: SpeakerInfo| s.name@),
                joined_names(names) == out@ + join_from(names, i as int),
            decreases n - i,
        {
            let ghost before = out@;
            out.append(" + ");
            out.append(self.speakers[i].name.as_str());
            proof {
                assert(names[i as int] == self.speakers@[i as int].name@);
                assert(join_from(names, i as int) == " + "@ + names[i as int] + join_from(
                    names,
                    i + 1,
                ));
                assert(before + (" + "@ + names[i as int] + join_from(names, i + 1)) =~= out@
                    + join_from(names, i + 1));
            }
            i = i + 1;
        }
        proof {
            assert(join_from(names, n as int) =~= Seq::<char>::empty());
            assert(out@ + Seq::<char>::empty() =~= out@);
        }
        out
    }
}

/// The tail of a joined name list: a separator before each entry from `i` on.
pub open spec fn join_from(names: Seq<Seq<char>>, i: int) -> Seq<char>
    decreases names.len() - i,
{
    if i < 0 || i >= names.len() {
        Seq::empty()
    } else {
        " + "@ + names[i] + join_from(names, i + 1)
    }
}

/// Name entries joined by " + ".
pub open spec fn joined_names(names: Seq<Seq<char>>) -> Seq<char> {
    if names.len() == 0 {
        Seq::empty()
    } else {
        names[0] + join_from(names, 1)
    }
}

/// The display name a group carries: its member names joined.
pub open spec fn group_display_name(g: SpeakerGroup) -> Seq<char> {
    joined_names(g.speakers@.map_values(|s: SpeakerInfo| s.name@))
}

} // verus!
