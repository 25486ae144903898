use vstd::prelude::*;

use crate::text::{lower_seq, seq_lt, compare_str, lemma_seq_order_basics, str_eq, to_ascii_lowercase, trim, trim_seq};
use crate::text_map::{TextMap, TextSet};

verus! {

/// How much of a player's summary is to be recomputed.
#[derive(Clone, Copy, Debug, PartialEq, Eq, Structural)]
pub enum PlayerInfoRefreshMode {
    Full,
    KillRatio,
}

/// The players whose summaries are to be recomputed, fully or only their kill ratio.
pub struct PlayerInfoRefreshPlan {
    full_handles: TextSet,
    kill_ratio_handles: TextSet,
}

impl PlayerInfoRefreshPlan {
    pub closed spec fn wf(self) -> bool {
        self.full_handles.wf() && self.kill_ratio_handles.wf()
    }

    pub closed spec fn full_view(self) -> Set<Seq<char>> {
        self.full_handles.set()
    }

    pub closed spec fn kill_ratio_view(self) -> Set<Seq<char>> {
        self.kill_ratio_handles.set()
    }

    pub fn new() -> (r: Self)
        ensures
            r.wf(),
            r.full_view() == Set::<Seq<char>>::empty(),
            r.kill_ratio_view() == Set::<Seq<char>>::empty(),
    {
        Self { full_handles: TextSet::new(), kill_ratio_handles: TextSet::new() }
    }

    pub fn add_full_handles(&mut self, handles: Vec<String>)
        requires
            old(self).wf(),
        ensures
            final(self).wf(),
            final(self).full_view() == old(self).full_view().union(handles@.map_values(|h: String| h@).to_set()),
            final(self).kill_ratio_view() == old(self).kill_ratio_view(),
    {
        add_all(&mut self.full_handles, handles);
    }

    pub fn add_kill_ratio_handles(&mut self, handles: Vec<String>)
        requires
            old(self).wf(),
        ensures
            final(self).wf(),
            final(self).kill_ratio_view() == old(self).kill_ratio_view().union(
                handles@.map_values(|h: String| h@).to_set(),
            ),
            final(self).full_view() == old(self).full_view(),
    {
        add_all(&mut self.kill_ratio_handles, handles);
    }

    /// Adds the handles of another plan.
    pub fn extend(&mut self, other: Self)
        requires
            old(self).wf(),
            other.wf(),
        ensures
            final(self).wf(),
            final(self).full_view() == old(self).full_view().union(other.full_view()),
            final(self).kill_ratio_view() == old(self).kill_ratio_view().union(other.kill_ratio_view()),
    {
        let full = items_of(&other.full_handles);
        let kill = items_of(&other.kill_ratio_handles);
        add_all(&mut self.full_handles, full);
        add_all(&mut self.kill_ratio_handles, kill);
    }

    /// The mode for each planned handle: a full refresh wins over a kill-ratio one.
    pub fn modes_by_handle(&self) -> (r: TextMap<PlayerInfoRefreshMode>)
        requires
            self.wf(),
        ensures
            r.wf(),
            r.map() == modes_spec(self.full_view(), self.kill_ratio_view()),
    {
        let mut modes: TextMap<PlayerInfoRefreshMode> = TextMap::new();
        let kill = items_of(&self.kill_ratio_handles);
        let full = items_of(&self.full_handles);
        let ghost ks = kill@.map_values(|h: String| h@);
        let ghost fs = full@.map_values(|h: String| h@);
        for i in 0..kill.len()
            invariant
                modes.wf(),
                ks == kill@.map_values(|h: String| h@),
                modes.map() == Map::new(
                    |h: Seq<char>| ks.take(i as int).contains(h),
                    |h: Seq<char>| PlayerInfoRefreshMode::KillRatio,
                ),
        {
            let _ = modes.insert(kill[i].clone(), PlayerInfoRefreshMode::KillRatio);
            proof {
                broadcast use vstd::seq_lib::group_seq_properties;
                assert(ks.take(i + 1) =~= ks.take(i as int).push(ks[i as int]));
                assert(modes.map() =~= Map::new(
                    |h: Seq<char>| ks.take(i + 1).contains(h),
                    |h: Seq<char>| PlayerInfoRefreshMode::KillRatio,
                ));
            }
        }
        assert(ks.take(ks.len() as int) =~= ks);
        for i in 0..full.len()
            invariant
                modes.wf(),
                ks == kill@.map_values(|h: String| h@),
                fs == full@.map_values(|h: String| h@),
                modes.map() == Map::new(
                    |h: Seq<char>| ks.contains(h) || fs.take(i as int).contains(h),
                    |h: Seq<char>| if fs.take(i as int).contains(h) {
                        PlayerInfoRefreshMode::Full
                    } else {
                        PlayerInfoRefreshMode::KillRatio
                    },
                ),
        {
            let _ = modes.insert(full[i].clone(), PlayerInfoRefreshMode::Full);
            proof {
                broadcast use vstd::seq_lib::group_seq_properties;
                assert(fs.take(i + 1) =~= fs.take(i as int).push(fs[i as int]));
                assert(modes.map() =~= Map::new(
                    |h: Seq<char>| ks.contains(h) || fs.take(i + 1).contains(h),
                    |h: Seq<char>| if fs.take(i + 1).contains(h) {
                        PlayerInfoRefreshMode::Full
                    } else {
                        PlayerInfoRefreshMode::KillRatio
                    },
                ));
            }
        }
        proof {
            assert(fs.take(fs.len() as int) =~= fs);
            assert(modes.map() =~= modes_spec(self.full_view(), self.kill_ratio_view()));
        }
        modes
    }
}

/// The refresh mode of every planned handle: full where a full refresh is planned, else the
/// kill ratio.
pub open spec fn modes_spec(full: Set<Seq<char>>, kill_ratio: Set<Seq<char>>) -> Map<Seq<char>, PlayerInfoRefreshMode> {
    Map::new(
        |h: Seq<char>| full.contains(h) || kill_ratio.contains(h),
        |h: Seq<char>| if full.contains(h) {
            PlayerInfoRefreshMode::Full
        } else {
            PlayerInfoRefreshMode::KillRatio
        },
    )
}

/// A full refresh planned for a handle is never lowered to a kill-ratio one.
pub proof fn law_full_refresh_wins(full: Set<Seq<char>>, kill_ratio: Set<Seq<char>>, h: Seq<char>)
    requires
        full.contains(h),
    ensures
        modes_spec(full, kill_ratio).contains_key(h),
        modes_spec(full, kill_ratio)[h] == PlayerInfoRefreshMode::Full,
{
}

/// The items of a set, in ascending order.
fn items_of(s: &TextSet) -> (r: Vec<String>)
    requires
        s.wf(),
    ensures
        r@.map_values(|h: String| h@).to_set() == s.set(),
{
    let mut out: Vec<String> = Vec::new();
    let n = s.len();
    proof {
        s.lemma_items();
    }
    for i in 0..n
        invariant
            s.wf(),
            n == s.items_seq().len(),
            out@.map_values(|h: String| h@) == s.items_seq().take(i as int),
    {
        out.push(s.item_at(i).clone());
        proof {
            assert(s.items_seq().take(i + 1) =~= s.items_seq().take(i as int).push(s.items_seq()[i as int]));
            assert(out@.map_values(|h: String| h@) =~= s.items_seq().take(i + 1));
        }
    }
    proof {
        assert(s.items_seq().take(n as int) =~= s.items_seq());
        assert(out@.map_values(|h: String| h@).to_set() =~= s.set()) by {
            assert forall|x: Seq<char>| s.set().contains(x) implies out@.map_values(|h: String| h@).to_set().contains(x) by {
                assert(s.items_seq().contains(x));
            }
        }
    }
    out
}

/// Adds every handle to a set.
fn add_all(set: &mut TextSet, handles: Vec<String>)
    requires
        old(set).wf(),
    ensures
        final(set).wf(),
        final(set).set() == old(set).set().union(handles@.map_values(|h: String| h@).to_set()),
{
    let ghost hs = handles@.map_values(|h: String| h@);
    for i in 0..handles.len()
        invariant
            set.wf(),
            hs == handles@.map_values(|h: String| h@),
            set.set() == old(set).set().union(hs.take(i as int).to_set()),
    {
        set.insert(handles[i].clone());
        proof {
            assert(hs.take(i + 1) =~= hs.take(i as int).push(hs[i as int]));
            hs.take(i as int).lemma_push_to_set_commute(hs[i as int]);
            assert(set.set() =~= old(set).set().union(hs.take(i + 1).to_set()));
        }
    }
    proof {
        assert(hs.take(hs.len() as int) =~= hs);
    }
}

/// One game of a player, as the summary reads it.
#[derive(Clone, Debug)]
pub struct PlayerInfoSourceRow {
    pub result: String,
    pub apm: Option<u32>,
    pub commander: String,
    pub date_seconds: u64,
    pub kills: Option<u64>,
    pub replay_total_kills: u64,
}

/// Whether a game's result text is a win, a loss, or neither (read trimmed, in lower case).
pub open spec fn is_win_spec(result: Seq<char>) -> Option<bool> {
    let n = lower_seq(trim_seq(result));
    if n == "victory"@ || n == "win"@ || n == "1"@ || n == "true"@ {
        Some(true)
    } else if n == "defeat"@ || n == "loss"@ || n == "lose"@ || n == "0"@ || n == "false"@ {
        Some(false)
    } else {
        None
    }
}

impl PlayerInfoSourceRow {
    /// Whether this game was won, lost, or has no readable result.
    pub fn is_win(&self) -> (r: Option<bool>)
        ensures
            r == is_win_spec(self.result@),
    {
        result_outcome(self.result.as_str())
    }
}

/// Whether a game's result text is a win, a loss, or neither (see [`is_win_spec`]).
pub fn result_outcome(result: &str) -> (r: Option<bool>)
    ensures
        r == is_win_spec(result@),
{
    let n = to_ascii_lowercase(trim(result).as_str());
    let s = n.as_str();
    if str_eq(s, "victory") || str_eq(s, "win") || str_eq(s, "1") || str_eq(s, "true") {
        Some(true)
    } else if str_eq(s, "defeat") || str_eq(s, "loss") || str_eq(s, "lose") || str_eq(s, "0") || str_eq(
        s,
        "false",
    ) {
        Some(false)
    } else {
        None
    }
}

/// The whole-number part of a player's summary, over the games with a readable result.
pub struct PlayerInfoTallyView {
    pub valid_games: nat,
    pub wins: nat,
    pub apm_total: nat,
    pub apm_games: nat,
    pub latest_played_time: nat,
    /// The newest game with a commander: its date and commander.
    pub latest: Option<(u64, Seq<char>)>,
}

/// Whether the game (date `d`, commander `c`) is at least as new as (`bd`, `bc`): by date,
/// then by commander.
pub open spec fn at_least_as_late(d: u64, c: Seq<char>, bd: u64, bc: Seq<char>) -> bool {
    d > bd || (d == bd && !seq_lt(c, bc))
}

/// The tally of the first `n` games.
pub open spec fn tally_upto(rows: Seq<PlayerInfoSourceRow>, n: int) -> PlayerInfoTallyView
    decreases n,
{
    if n <= 0 {
        PlayerInfoTallyView { valid_games: 0, wins: 0, apm_total: 0, apm_games: 0, latest_played_time: 0, latest: None }
    } else {
        let t = tally_upto(rows, n - 1);
        let row = rows[n - 1];
        match is_win_spec(row.result@) {
            None => t,
            Some(won) => PlayerInfoTallyView {
                valid_games: t.valid_games + 1,
                wins: if won {
                    t.wins + 1
                } else {
                    t.wins
                },
                apm_total: match row.apm {
                    Some(a) => t.apm_total + a as nat,
                    None => t.apm_total,
                },
                apm_games: match row.apm {
                    Some(a) => t.apm_games + 1,
                    None => t.apm_games,
                },
                latest_played_time: if row.date_seconds > t.latest_played_time {
                    row.date_seconds as nat
                } else {
                    t.latest_played_time
                },
                latest: if trim_seq(row.commander@).len() == 0 {
                    t.latest
                } else {
                    match t.latest {
                        None => Some((row.date_seconds, row.commander@)),
                        Some((bd, bc)) => if at_least_as_late(row.date_seconds, row.commander@, bd, bc) {
                            Some((row.date_seconds, row.commander@))
                        } else {
                            t.latest
                        },
                    }
                },
            },
        }
    }
}

/// The number of the first `n` games with a readable result and commander `c`.
pub open spec fn commander_games_upto(rows: Seq<PlayerInfoSourceRow>, n: int, c: Seq<char>) -> nat
    decreases n,
{
    if n <= 0 {
        0
    } else {
        let k = commander_games_upto(rows, n - 1, c);
        if is_win_spec(rows[n - 1].result@) is Some && rows[n - 1].commander@ == c {
            k + 1
        } else {
            k
        }
    }
}

/// Whether `a` is the tally of `rows`: wins and losses of the games with a readable result,
/// the APM total and count, the newest commander and how many of those games it played, the
/// number of those games and the newest of their dates.
pub open spec fn tally_matches(a: PlayerInfoTally, rows: Seq<PlayerInfoSourceRow>) -> bool {
    let t = tally_upto(rows, rows.len() as int);
    let c = match t.latest {
        Some((_, c)) => c,
        None => Seq::<char>::empty(),
    };
    &&& a.wins == t.wins
    &&& a.losses == t.valid_games - t.wins
    &&& a.apm_total == t.apm_total
    &&& a.apm_games == t.apm_games
    &&& a.latest_commander@ == c
    &&& a.commander_games == (if t.latest is Some {
        commander_games_upto(rows, rows.len() as int, c)
    } else {
        0
    })
    &&& a.valid_games == t.valid_games
    &&& a.latest_played_time == t.latest_played_time
}

/// The whole-number part of a player's summary; the averages are taken from it by the caller.
pub struct PlayerInfoTally {
    pub wins: u64,
    pub losses: u64,
    pub apm_total: u128,
    pub apm_games: u64,
    pub latest_commander: String,
    pub commander_games: u64,
    pub valid_games: u64,
    pub latest_played_time: u64,
}

proof fn lemma_tally_bounds(rows: Seq<PlayerInfoSourceRow>, n: int)
    requires
        0 <= n <= rows.len(),
    ensures
        tally_upto(rows, n).wins <= tally_upto(rows, n).valid_games,
        tally_upto(rows, n).valid_games <= n,
        tally_upto(rows, n).apm_games <= tally_upto(rows, n).valid_games,
        tally_upto(rows, n).apm_total <= tally_upto(rows, n).apm_games * 0xffff_ffff,
        tally_upto(rows, n).latest_played_time <= u64::MAX,
    decreases n,
{
    if n > 0 {
        lemma_tally_bounds(rows, n - 1);
    }
}

proof fn lemma_commander_games_bound(rows: Seq<PlayerInfoSourceRow>, n: int, c: Seq<char>)
    requires
        0 <= n <= rows.len(),
    ensures
        commander_games_upto(rows, n, c) <= tally_upto(rows, n).valid_games,
    decreases n,
{
    if n > 0 {
        lemma_commander_games_bound(rows, n - 1, c);
    }
}

proof fn lemma_tally_facts(rows: Seq<PlayerInfoSourceRow>, n: int)
    requires
        0 <= n <= rows.len(),
    ensures
        ({
            let t = tally_upto(rows, n);
            &&& (t.valid_games == 0) == (forall|i: int| 0 <= i < n ==> is_win_spec(#[trigger] rows[i].result@) is None)
            &&& t.valid_games == 0 ==> t.latest_played_time == 0
            &&& forall|i: int|
                0 <= i < n && (is_win_spec(#[trigger] rows[i].result@) is Some) ==> rows[i].date_seconds <= t.latest_played_time
            &&& t.valid_games > 0 ==> exists|i: int|
                0 <= i < n && (is_win_spec(#[trigger] rows[i].result@) is Some) && rows[i].date_seconds == t.latest_played_time
            &&& t.latest matches Some((d, c)) ==> exists|i: int|
                0 <= i < n && (is_win_spec(#[trigger] rows[i].result@) is Some) && rows[i].date_seconds == d
                    && rows[i].commander@ == c && trim_seq(c).len() > 0
            &&& forall|i: int|
                0 <= i < n && (is_win_spec(#[trigger] rows[i].result@) is Some) && trim_seq(rows[i].commander@).len()
                    > 0 ==> (t.latest matches Some((d, c)) && rows[i].date_seconds <= d)
        }),
    decreases n,
{
    if n > 0 {
        lemma_tally_facts(rows, n - 1);
        let t0 = tally_upto(rows, n - 1);
        let t = tally_upto(rows, n);
        let row = rows[n - 1];
        if is_win_spec(row.result@) is Some {
            assert(is_win_spec(rows[n - 1].result@) is Some);
            if t0.valid_games > 0 {
                let j = choose|i: int|
                    0 <= i < n - 1 && (is_win_spec(#[trigger] rows[i].result@) is Some) && rows[i].date_seconds
                        == t0.latest_played_time;
                if row.date_seconds <= t0.latest_played_time {
                    assert(rows[j].date_seconds == t.latest_played_time);
                }
            }
            if t.latest != t0.latest {
                assert(rows[n - 1].commander@ == row.commander@);
            } else if let Some((d, c)) = t.latest {
                let j = choose|i: int|
                    0 <= i < n - 1 && (is_win_spec(#[trigger] rows[i].result@) is Some) && rows[i].date_seconds == d
                        && rows[i].commander@ == c && trim_seq(c).len() > 0;
                assert(0 <= j < n);
            }
        }
    }
}

/// The games with a readable result.
pub open spec fn readable_game(r: PlayerInfoSourceRow) -> bool {
    is_win_spec(r.result@) is Some
}

/// The games won.
pub open spec fn won_game(r: PlayerInfoSourceRow) -> bool {
    is_win_spec(r.result@) == Some(true)
}

/// The games with a readable result and an APM.
pub open spec fn game_with_apm(r: PlayerInfoSourceRow) -> bool {
    is_win_spec(r.result@) is Some && r.apm is Some
}

proof fn lemma_tally_counts(rows: Seq<PlayerInfoSourceRow>, n: int)
    requires
        0 <= n <= rows.len(),
    ensures
        tally_upto(rows, n).valid_games == rows.take(n).filter(|r: PlayerInfoSourceRow| readable_game(r)).len(),
        tally_upto(rows, n).wins == rows.take(n).filter(|r: PlayerInfoSourceRow| won_game(r)).len(),
        tally_upto(rows, n).apm_games == rows.take(n).filter(|r: PlayerInfoSourceRow| game_with_apm(r)).len(),
    decreases n,
{
    reveal(Seq::filter);
    if n > 0 {
        lemma_tally_counts(rows, n - 1);
        assert(rows.take(n).drop_last() =~= rows.take(n - 1));
        assert(rows.take(n).last() == rows[n - 1]);
    } else {
        assert(rows.take(0).len() == 0);
    }
}

proof fn lemma_commander_count(rows: Seq<PlayerInfoSourceRow>, n: int, c: Seq<char>)
    requires
        0 <= n <= rows.len(),
    ensures
        commander_games_upto(rows, n, c) == rows.take(n).filter(
            |r: PlayerInfoSourceRow| readable_game(r) && r.commander@ == c,
        ).len(),
    decreases n,
{
    reveal(Seq::filter);
    if n > 0 {
        lemma_commander_count(rows, n - 1, c);
        assert(rows.take(n).drop_last() =~= rows.take(n - 1));
        assert(rows.take(n).last() == rows[n - 1]);
    } else {
        assert(rows.take(0).len() == 0);
    }
}

proof fn lemma_losses_count(rows: Seq<PlayerInfoSourceRow>, n: int)
    requires
        0 <= n <= rows.len(),
    ensures
        tally_upto(rows, n).valid_games - tally_upto(rows, n).wins == rows.take(n).filter(
            |r: PlayerInfoSourceRow| is_win_spec(r.result@) == Some(false),
        ).len(),
    decreases n,
{
    reveal(Seq::filter);
    if n > 0 {
        lemma_losses_count(rows, n - 1);
        assert(rows.take(n).drop_last() =~= rows.take(n - 1));
        assert(rows.take(n).last() == rows[n - 1]);
    } else {
        assert(rows.take(0).len() == 0);
    }
}

/// The tally of a player's games counts only the games with a readable result: it is empty
/// exactly when no game has one; its wins and losses split those games; its latest time is
/// the newest of their dates; its newest commander is the non-blank commander of one of them
/// with that game's date, and no such game with a non-blank commander is newer; its wins,
/// losses, games with an APM and games of a commander are the numbers of such games that
/// were won, lost, have an APM or have that commander.
pub proof fn law_tally_over_readable_games(rows: Seq<PlayerInfoSourceRow>, c: Seq<char>)
    ensures
        ({
            let t = tally_upto(rows, rows.len() as int);
            &&& (t.valid_games == 0) == (forall|i: int|
                0 <= i < rows.len() ==> is_win_spec(#[trigger] rows[i].result@) is None)
            &&& t.wins <= t.valid_games
            &&& forall|i: int|
                0 <= i < rows.len() && (is_win_spec(#[trigger] rows[i].result@) is Some) ==> rows[i].date_seconds
                    <= t.latest_played_time
            &&& t.valid_games > 0 ==> exists|i: int|
                0 <= i < rows.len() && (is_win_spec(#[trigger] rows[i].result@) is Some) && rows[i].date_seconds
                    == t.latest_played_time
            &&& t.latest matches Some((d, lc)) ==> exists|i: int|
                0 <= i < rows.len() && (is_win_spec(#[trigger] rows[i].result@) is Some) && rows[i].date_seconds == d
                    && rows[i].commander@ == lc && trim_seq(lc).len() > 0
            &&& forall|i: int|
                0 <= i < rows.len() && (is_win_spec(#[trigger] rows[i].result@) is Some) && trim_seq(
                    rows[i].commander@,
                ).len() > 0 ==> (t.latest matches Some((d, lc)) && rows[i].date_seconds <= d)
            &&& commander_games_upto(rows, rows.len() as int, c) <= t.valid_games
            &&& t.valid_games == rows.filter(|r: PlayerInfoSourceRow| readable_game(r)).len()
            &&& t.wins == rows.filter(|r: PlayerInfoSourceRow| won_game(r)).len()
            &&& t.valid_games - t.wins == rows.filter(
                |r: PlayerInfoSourceRow| is_win_spec(r.result@) == Some(false),
            ).len()
            &&& t.apm_games == rows.filter(|r: PlayerInfoSourceRow| game_with_apm(r)).len()
            &&& commander_games_upto(rows, rows.len() as int, c) == rows.filter(
                |r: PlayerInfoSourceRow| readable_game(r) && r.commander@ == c,
            ).len()
        }),
{
    lemma_commander_count(rows, rows.len() as int, c);
    lemma_tally_counts(rows, rows.len() as int);
    assert(rows.take(rows.len() as int) =~= rows);
    lemma_losses_count(rows, rows.len() as int);
    lemma_tally_facts(rows, rows.len() as int);
    lemma_tally_bounds(rows, rows.len() as int);
    lemma_commander_games_bound(rows, rows.len() as int, c);
}

impl PlayerInfoTally {
    /// The tally of a player's games, or nothing when no game has a readable result.
    pub fn from_rows(rows: &[PlayerInfoSourceRow]) -> (r: Option<PlayerInfoTally>)
        ensures
            tally_upto(rows@, rows@.len() as int).valid_games == 0 ==> r is None,
            tally_upto(rows@, rows@.len() as int).valid_games > 0 ==> (r matches Some(a) && tally_matches(a, rows@)),
    {
        let n = rows.len();
        let mut valid: u64 = 0;
        let mut wins: u64 = 0;
        let mut apm_total: u128 = 0;
        let mut apm_games: u64 = 0;
        let mut latest_time: u64 = 0;
        let mut best: Option<(u64, String)> = None;
        for i in 0..n
            invariant
                n == rows@.len(),
                ({
                    let t = tally_upto(rows@, i as int);
                    &&& valid == t.valid_games
                    &&& wins == t.wins
                    &&& apm_total == t.apm_total
                    &&& apm_games == t.apm_games
                    &&& latest_time == t.latest_played_time
                    &&& match best {
                        Some((d, c)) => t.latest == Some((d, c@)),
                        None => t.latest is None,
                    }
                }),
        {
            proof {
                lemma_tally_bounds(rows@, i as int);
                lemma_tally_bounds(rows@, i + 1);
            }
            let row = &rows[i];
            match row.is_win() {
                None => {},
                Some(won) => {
                    valid = valid + 1;
                    if won {
                        wins = wins + 1;
                    }
                    match row.apm {
                        Some(a) => {
                            apm_total = apm_total + a as u128;
                            apm_games = apm_games + 1;
                        },
                        None => {},
                    }
                    if row.date_seconds > latest_time {
                        latest_time = row.date_seconds;
                    }
                    let blank = trim(row.commander.as_str()).as_str().is_empty();
                    if !blank {
                        let replace = match &best {
                            None => true,
                            Some((bd, bc)) => row.date_seconds > *bd || (row.date_seconds == *bd && compare_str(
                                row.commander.as_str(),
                                bc.as_str(),
                            ) >= 0),
                        };
                        if replace {
                            best = Some((row.date_seconds, row.commander.clone()));
                        }
                    }
                },
            }
        }
        proof {
            lemma_tally_bounds(rows@, n as int);
        }
        if valid == 0 {
            return None;
        }
        let ghost t = tally_upto(rows@, n as int);
        let latest_commander = match best {
            Some((_, c)) => c,
            None => String::new(),
        };
        let mut commander_games: u64 = 0;
        if !latest_commander.as_str().is_empty() {
            for i in 0..n
                invariant
                    n == rows@.len(),
                    commander_games == commander_games_upto(rows@, i as int, latest_commander@),
            {
                proof {
                    lemma_commander_games_bound(rows@, i + 1, latest_commander@);
                    lemma_tally_bounds(rows@, i + 1);
                }
                let row = &rows[i];
                if row.is_win().is_some() && str_eq(row.commander.as_str(), latest_commander.as_str()) {
                    commander_games = commander_games + 1;
                }
            }
        }
        proof {
            if let Some((_, c)) = t.latest {
                assert(trim_seq(c).len() > 0 ==> c.len() > 0) by {
                    if c.len() == 0 {
                        assert(trim_seq(c) =~= Seq::<char>::empty()) by {
                            reveal_with_fuel(crate::text::trim_start_seq, 2);
                        }
                    }
                }
                lemma_latest_not_blank(rows@, n as int);
            }
        }
        Some(PlayerInfoTally {
            wins,
            losses: valid - wins,
            apm_total,
            apm_games,
            latest_commander,
            commander_games,
            valid_games: valid,
            latest_played_time: latest_time,
        })
    }
}

proof fn lemma_latest_not_blank(rows: Seq<PlayerInfoSourceRow>, n: int)
    requires
        0 <= n <= rows.len(),
    ensures
        tally_upto(rows, n).latest matches Some((_, c)) ==> trim_seq(c).len() > 0,
    decreases n,
{
    if n > 0 {
        lemma_latest_not_blank(rows, n - 1);
    }
}

} // verus!

verus! {

/// What refreshing one player's summary writes.
pub enum PlayerInfoWrite {
    /// No games at all: the summary goes.
    DeleteInfo,
    /// Games, but none with a readable result: the player is kept without figures.
    EnsureInfo,
    /// The whole summary is written from the tally.
    UpsertAggregate(PlayerInfoTally),
    /// Only the kill ratio is updated (the whole summary is written when there was none).
    UpdateKillRatio(PlayerInfoTally),
}

impl PlayerInfoRefreshPlan {
    /// What refreshing a player in `mode` writes, given the player's games.
    pub fn refresh_write(mode: PlayerInfoRefreshMode, rows: &[PlayerInfoSourceRow]) -> (r: PlayerInfoWrite)
        ensures
            tally_upto(rows@, rows@.len() as int).valid_games == 0 && rows@.len() == 0 ==> r is DeleteInfo,
            tally_upto(rows@, rows@.len() as int).valid_games == 0 && rows@.len() > 0 ==> r is EnsureInfo,
            tally_upto(rows@, rows@.len() as int).valid_games > 0 && mode == PlayerInfoRefreshMode::Full
                ==> r is UpsertAggregate,
            tally_upto(rows@, rows@.len() as int).valid_games > 0 && mode == PlayerInfoRefreshMode::KillRatio
                ==> r is UpdateKillRatio,
            match r {
                PlayerInfoWrite::UpsertAggregate(t) => tally_matches(t, rows@),
                PlayerInfoWrite::UpdateKillRatio(t) => tally_matches(t, rows@),
                _ => true,
            },
    {
        match PlayerInfoTally::from_rows(rows) {
            None => {
                if rows.len() == 0 {
                    PlayerInfoWrite::DeleteInfo
                } else {
                    PlayerInfoWrite::EnsureInfo
                }
            },
            Some(t) => match mode {
                PlayerInfoRefreshMode::Full => PlayerInfoWrite::UpsertAggregate(t),
                PlayerInfoRefreshMode::KillRatio => PlayerInfoWrite::UpdateKillRatio(t),
            },
        }
    }
}

} // verus!
