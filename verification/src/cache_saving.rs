use vstd::prelude::*;

use crate::db_columns::{u64_column, ReplayCacheColumns};
use crate::db_core::{normalized_commander_spec, normalized_handle_spec, ReplayCacheStatsFactOps};
use crate::player_info::PlayerInfoRefreshPlan;
use crate::text::{trim, trim_seq};

verus! {

/// A player of a replay as the cache saves it: its slot (0 for none) and its handle and name
/// as the replay gives them.
#[derive(Clone, Debug)]
pub struct CachePlayerIdentity {
    pub pid: u8,
    pub handle: Option<String>,
    pub name: Option<String>,
    pub commander: Option<String>,
    pub kills: Option<u64>,
}

/// A text of a replay, trimmed; empty when missing.
pub open spec fn trimmed_or_empty(value: Option<Seq<char>>) -> Seq<char> {
    match value {
        Some(v) => trim_seq(v),
        None => Seq::empty(),
    }
}

pub open spec fn opt_view(o: Option<String>) -> Option<Seq<char>> {
    match o {
        Some(s) => Some(s@),
        None => None,
    }
}

/// The handles of the players in slots, in order, skipping blank ones.
pub open spec fn player_handles_spec(players: Seq<CachePlayerIdentity>) -> Seq<Seq<char>>
    decreases players.len(),
{
    if players.len() == 0 {
        Seq::empty()
    } else {
        let prev = player_handles_spec(players.drop_last());
        let p = players.last();
        let h = trimmed_or_empty(opt_view(p.handle));
        if p.pid > 0 && h.len() > 0 {
            prev.push(h)
        } else {
            prev
        }
    }
}

/// Whether a save leaves the cached replay as it is: a detailed analysis is kept, when asked
/// to, over a simple one.
pub open spec fn keeps_existing_spec(preserve_detailed: bool, existing_detailed: Option<bool>, record_detailed: bool) -> bool {
    preserve_detailed && existing_detailed == Some(true) && !record_detailed
}

/// Whether a save only adds detail to a replay cached from a simple analysis, so that only the
/// players' kill ratios change.
pub open spec fn kill_ratio_only_spec(preserve_detailed: bool, existing_detailed: Option<bool>, record_detailed: bool) -> bool {
    preserve_detailed && existing_detailed == Some(false) && record_detailed
}

pub open spec fn handle_set(v: Seq<String>) -> Set<Seq<char>> {
    v.map_values(|h: String| h@).to_set()
}

/// Decisions taken when a replay is saved to the cache.
pub struct ReplayCacheSaveOps;

impl ReplayCacheSaveOps {
    /// The handle of a player: trimmed, empty when missing or blank.
    pub fn player_handle(player: &CachePlayerIdentity) -> (r: String)
        ensures
            r@ == trimmed_or_empty(opt_view(player.handle)),
    {
        match &player.handle {
            Some(h) => trim(h.as_str()),
            None => String::new(),
        }
    }

    /// The name of a player: trimmed, empty when missing or blank.
    pub fn player_name(player: &CachePlayerIdentity) -> (r: String)
        ensures
            r@ == trimmed_or_empty(opt_view(player.name)),
    {
        match &player.name {
            Some(n) => trim(n.as_str()),
            None => String::new(),
        }
    }

    /// The handles of the players in slots (see [`player_handles_spec`]).
    pub fn player_handles(players: &[CachePlayerIdentity]) -> (r: Vec<String>)
        ensures
            r@.map_values(|h: String| h@) == player_handles_spec(players@),
    {
        let mut out: Vec<String> = Vec::new();
        for i in 0..players.len()
            invariant
                out@.map_values(|h: String| h@) == player_handles_spec(players@.take(i as int)),
        {
            let h = Self::player_handle(&players[i]);
            proof {
                assert(players@.take(i + 1).drop_last() =~= players@.take(i as int));
                assert(players@.take(i + 1).last() == players@[i as int]);
            }
            let ghost before = out@;
            if players[i].pid > 0 && !h.as_str().is_empty() {
                out.push(h);
            }
            proof {
                if players[i as int].pid > 0 && h@.len() > 0 {
                    assert(out@.map_values(|h: String| h@) =~= before.map_values(|h: String| h@).push(h@));
                } else {
                    assert(out@ == before);
                }
            }
        }
        proof {
            assert(players@.take(players@.len() as int) =~= players@);
        }
        out
    }

    /// See [`keeps_existing_spec`].
    pub fn keeps_existing_detailed(preserve_detailed: bool, existing_detailed: Option<bool>, record_detailed: bool) -> (r:
        bool)
        ensures
            r == keeps_existing_spec(preserve_detailed, existing_detailed, record_detailed),
    {
        preserve_detailed && existing_detailed == Some(true) && !record_detailed
    }

    /// See [`kill_ratio_only_spec`].
    pub fn refreshes_kill_ratio_only(preserve_detailed: bool, existing_detailed: Option<bool>, record_detailed: bool) -> (r:
        bool)
        ensures
            r == kill_ratio_only_spec(preserve_detailed, existing_detailed, record_detailed),
    {
        preserve_detailed && existing_detailed == Some(false) && record_detailed
    }

    /// The players whose summaries a save makes stale: those of other replays of the same file
    /// always in full; then, unless the cached replay is kept, those it had and those it now
    /// has, only for the kill ratio when only detail was added.
    pub fn upsert_refresh_plan(
        file_replacement_handles: Vec<String>,
        existing_handles: Vec<String>,
        new_handles: Vec<String>,
        preserve_detailed: bool,
        existing_detailed: Option<bool>,
        record_detailed: bool,
    ) -> (r: PlayerInfoRefreshPlan)
        ensures
            r.wf(),
            keeps_existing_spec(preserve_detailed, existing_detailed, record_detailed) ==> r.full_view()
                == handle_set(file_replacement_handles@) && r.kill_ratio_view() == Set::<Seq<char>>::empty(),
            kill_ratio_only_spec(preserve_detailed, existing_detailed, record_detailed) ==> r.full_view()
                == handle_set(file_replacement_handles@) && r.kill_ratio_view() == handle_set(existing_handles@).union(
                handle_set(new_handles@),
            ),
            !keeps_existing_spec(preserve_detailed, existing_detailed, record_detailed) && !kill_ratio_only_spec(
                preserve_detailed,
                existing_detailed,
                record_detailed,
            ) ==> r.full_view() == handle_set(file_replacement_handles@).union(handle_set(existing_handles@)).union(
                handle_set(new_handles@),
            ) && r.kill_ratio_view() == Set::<Seq<char>>::empty(),
    {
        let mut plan = PlayerInfoRefreshPlan::new();
        plan.add_full_handles(file_replacement_handles);
        if Self::keeps_existing_detailed(preserve_detailed, existing_detailed, record_detailed) {
            proof {
                assert(Set::<Seq<char>>::empty().union(handle_set(file_replacement_handles@)) =~= handle_set(
                    file_replacement_handles@,
                ));
            }
            return plan;
        }
        if Self::refreshes_kill_ratio_only(preserve_detailed, existing_detailed, record_detailed) {
            plan.add_kill_ratio_handles(existing_handles);
            plan.add_kill_ratio_handles(new_handles);
        } else {
            plan.add_full_handles(existing_handles);
            plan.add_full_handles(new_handles);
        }
        proof {
            assert(Set::<Seq<char>>::empty().union(handle_set(file_replacement_handles@)) =~= handle_set(
                file_replacement_handles@,
            ));
            assert(Set::<Seq<char>>::empty().union(handle_set(existing_handles@)) =~= handle_set(existing_handles@));
        }
        plan
    }
}

/// A save never both keeps the cached replay and adds detail to it, and a save that keeps it
/// is one of a simple analysis over a detailed one.
pub proof fn law_keep_and_upgrade_exclusive(preserve_detailed: bool, existing_detailed: Option<bool>, record_detailed: bool)
    ensures
        !(keeps_existing_spec(preserve_detailed, existing_detailed, record_detailed) && kill_ratio_only_spec(
            preserve_detailed,
            existing_detailed,
            record_detailed,
        )),
        keeps_existing_spec(preserve_detailed, existing_detailed, record_detailed) ==> !record_detailed
            && existing_detailed == Some(true),
        !preserve_detailed ==> !keeps_existing_spec(preserve_detailed, existing_detailed, record_detailed)
            && !kill_ratio_only_spec(preserve_detailed, existing_detailed, record_detailed),
{
}

/// What the statistics remember of a player of a replay.
#[derive(Clone, Debug)]
pub struct StatisticsPlayerFactRecord {
    pub player_handle_key: String,
    pub commander: String,
    pub player_kills: i64,
}

impl StatisticsPlayerFactRecord {
    /// The statistics fact of a player in one of the first two slots (or none) with a handle
    /// and a known commander: its handle key, commander name and kills.
    pub fn from_player(player: &CachePlayerIdentity) -> (r: Option<Self>)
        ensures
            ({
                let handle = trimmed_or_empty(opt_view(player.handle));
                let commander = normalized_commander_spec(
                    match opt_view(player.commander) {
                        Some(c) => c,
                        None => Seq::empty(),
                    },
                );
                if player.pid > 2 || handle.len() == 0 || commander.len() == 0 {
                    r is None
                } else {
                    r matches Some(f) && f.player_handle_key@ == normalized_handle_spec(handle) && f.commander@
                        == commander && f.player_kills == match player.kills {
                        Some(k) => u64_column(k),
                        None => 0i64,
                    }
                }
            }),
    {
        if player.pid > 2 {
            return None;
        }
        let handle = ReplayCacheSaveOps::player_handle(player);
        if handle.as_str().is_empty() {
            return None;
        }
        let commander = match &player.commander {
            Some(c) => ReplayCacheStatsFactOps::normalized_commander_name(c.as_str()),
            None => ReplayCacheStatsFactOps::normalized_commander_name(""),
        };
        proof {
            reveal_strlit("");
        }
        if commander.as_str().is_empty() {
            return None;
        }
        Some(
            Self {
                player_handle_key: ReplayCacheStatsFactOps::normalized_handle_key(handle.as_str()),
                commander,
                player_kills: match player.kills {
                    Some(k) => ReplayCacheColumns::u64_to_i64(k),
                    None => 0,
                },
            },
        )
    }
}

impl ReplayCacheSaveOps {
    /// The slot and handle of each player in a slot with a handle, in order.
    pub fn player_handles_by_pid(players: &[CachePlayerIdentity]) -> (r: Vec<(u8, String)>)
        ensures
            r@.map_values(|p: (u8, String)| p.1@) == player_handles_spec(players@),
            forall|i: int| 0 <= i < r@.len() ==> (#[trigger] r@[i]).0 > 0,
    {
        let mut out: Vec<(u8, String)> = Vec::new();
        for i in 0..players.len()
            invariant
                out@.map_values(|p: (u8, String)| p.1@) == player_handles_spec(players@.take(i as int)),
                forall|k: int| 0 <= k < out@.len() ==> (#[trigger] out@[k]).0 > 0,
        {
            let h = Self::player_handle(&players[i]);
            proof {
                assert(players@.take(i + 1).drop_last() =~= players@.take(i as int));
                assert(players@.take(i + 1).last() == players@[i as int]);
            }
            let ghost before = out@;
            if players[i].pid > 0 && !h.as_str().is_empty() {
                out.push((players[i].pid, h));
                proof {
                    assert(out@.map_values(|p: (u8, String)| p.1@) =~= before.map_values(|p: (u8, String)| p.1@).push(
                        out@.last().1@,
                    ));
                }
            }
        }
        proof {
            assert(players@.take(players@.len() as int) =~= players@);
        }
        out
    }

    /// The handles read back from the database, without blank ones.
    pub fn collect_player_handles(handles: Vec<String>) -> (r: Vec<String>)
        ensures
            r@.map_values(|h: String| h@) == handles@.map_values(|h: String| h@).filter(
                |h: Seq<char>| trim_seq(h).len() > 0,
            ),
    {
        let mut out: Vec<String> = Vec::new();
        let ghost hs = handles@.map_values(|h: String| h@);
        let n = handles.len();
        let mut rest = handles;
        let mut i: usize = 0;
        proof {
            assert(hs.take(0).filter(|h: Seq<char>| trim_seq(h).len() > 0) =~= Seq::<Seq<char>>::empty());
        }
        while i < n
            invariant
                n == hs.len(),
                i <= n,
                rest@.len() == n - i,
                forall|k: int| 0 <= k < rest@.len() ==> (#[trigger] rest@[k])@ == hs[i + k],
                out@.map_values(|h: String| h@) == hs.take(i as int).filter(|h: Seq<char>| trim_seq(h).len() > 0),
            decreases n - i,
        {
            let h = rest.remove(0);
            proof {
                assert(h@ == hs[i as int]);
                assert(hs.take(i + 1).drop_last() =~= hs.take(i as int));
                assert(forall|k: int| 0 <= k < rest@.len() ==> (#[trigger] rest@[k])@ == hs[i + 1 + k]);
            }
            let ghost before = out@;
            proof {
                reveal(Seq::filter);
                assert(hs.take(i + 1).last() == hs[i as int]);
            }
            let t = trim(h.as_str());
            if !t.as_str().is_empty() {
                out.push(h);
                proof {
                    assert(out@.map_values(|h: String| h@) =~= before.map_values(|h: String| h@).push(hs[i as int]));
                }
            }
            i = i + 1;
        }
        proof {
            assert(hs.take(n as int) =~= hs);
        }
        out
    }
}

} // verus!
