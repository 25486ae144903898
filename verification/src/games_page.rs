use vstd::prelude::*;

use crate::query_types::{
    all_difficulty_filters, at_least_one, difficulty_filter_for, game_sort_key_for, ReplayCacheDifficultyFilter,
    ReplayCacheGameSortKey, ReplayCacheGamesPageQuery, ReplayCachePage, ReplayCacheSortDirection,
};
use crate::stats_filters::{join_strings, join_with};
use crate::text::{
    chars_of, compare_str, contains_chars, contains_seq, decimal_seq, decimal_string, lemma_seq_order_basics,
    lower_seq, seq_order, str_eq, to_ascii_lowercase, trim, trim_seq, lower_chars,
};

verus! {

/// Rows per page of the games list when the request names none.
pub const DEFAULT_CONFIG_ROWS_PER_PAGE: usize = 20;

/// What the games list was asked for; every part may be missing.
#[derive(Clone, Debug, Default)]
pub struct ConfigReplaysPageRequest {
    pub limit: Option<usize>,
    pub page: Option<usize>,
    pub rows_per_page: Option<usize>,
    pub search: Option<String>,
    pub sort_key: Option<String>,
    pub sort_direction: Option<String>,
    pub difficulty_filters: Option<Vec<String>>,
    pub include_normal_games: Option<bool>,
    pub include_mutation_games: Option<bool>,
}

/// The name a difficulty filter is written with in requests.
pub open spec fn difficulty_filter_name(f: ReplayCacheDifficultyFilter) -> Seq<char> {
    match f {
        ReplayCacheDifficultyFilter::Casual => "Casual"@,
        ReplayCacheDifficultyFilter::Normal => "Normal"@,
        ReplayCacheDifficultyFilter::Hard => "Hard"@,
        ReplayCacheDifficultyFilter::Brutal => "Brutal"@,
        ReplayCacheDifficultyFilter::BrutalPlus1 => "BrutalPlus1"@,
        ReplayCacheDifficultyFilter::BrutalPlus2 => "BrutalPlus2"@,
        ReplayCacheDifficultyFilter::BrutalPlus3 => "BrutalPlus3"@,
        ReplayCacheDifficultyFilter::BrutalPlus4 => "BrutalPlus4"@,
        ReplayCacheDifficultyFilter::BrutalPlus5 => "BrutalPlus5"@,
        ReplayCacheDifficultyFilter::BrutalPlus6 => "BrutalPlus6"@,
    }
}

/// The filters that the texts name, in order, skipping texts that name none.
pub open spec fn parse_filters(names: Seq<Seq<char>>) -> Seq<ReplayCacheDifficultyFilter>
    decreases names.len(),
{
    if names.len() == 0 {
        Seq::empty()
    } else {
        let prev = parse_filters(names.drop_last());
        match difficulty_filter_for(trim_seq(names.last())) {
            Some(f) => prev.push(f),
            None => prev,
        }
    }
}

pub open spec fn texts(v: Seq<String>) -> Seq<Seq<char>> {
    v.map_values(|s: String| s@)
}

/// The filter names a request stands for: those it gives, or the names of all filters.
pub open spec fn requested_filter_names(r: ConfigReplaysPageRequest) -> Seq<Seq<char>> {
    match r.difficulty_filters {
        Some(v) => texts(v@),
        None => all_difficulty_filters().map_values(|f: ReplayCacheDifficultyFilter| difficulty_filter_name(f)),
    }
}

pub open spec fn opt_view(o: Option<String>) -> Option<Seq<char>> {
    match o {
        Some(s) => Some(s@),
        None => None,
    }
}

/// The rows per page asked for (or the limit), 20 when neither is given, at least one.
pub open spec fn requested_rows(r: ConfigReplaysPageRequest) -> usize {
    at_least_one(
        match r.rows_per_page {
            Some(n) => n,
            None => match r.limit {
                Some(n) => n,
                None => DEFAULT_CONFIG_ROWS_PER_PAGE,
            },
        },
    )
}

/// The page asked for, at least the first.
pub open spec fn requested_page(r: ConfigReplaysPageRequest) -> usize {
    match r.page {
        Some(p) => at_least_one(p),
        None => 1,
    }
}

fn filter_name(f: ReplayCacheDifficultyFilter) -> (r: &'static str)
    ensures
        r@ == difficulty_filter_name(f),
{
    match f {
        ReplayCacheDifficultyFilter::Casual => "Casual",
        ReplayCacheDifficultyFilter::Normal => "Normal",
        ReplayCacheDifficultyFilter::Hard => "Hard",
        ReplayCacheDifficultyFilter::Brutal => "Brutal",
        ReplayCacheDifficultyFilter::BrutalPlus1 => "BrutalPlus1",
        ReplayCacheDifficultyFilter::BrutalPlus2 => "BrutalPlus2",
        ReplayCacheDifficultyFilter::BrutalPlus3 => "BrutalPlus3",
        ReplayCacheDifficultyFilter::BrutalPlus4 => "BrutalPlus4",
        ReplayCacheDifficultyFilter::BrutalPlus5 => "BrutalPlus5",
        ReplayCacheDifficultyFilter::BrutalPlus6 => "BrutalPlus6",
    }
}

fn all_filter_names() -> (r: Vec<String>)
    ensures
        texts(r@) == all_difficulty_filters().map_values(|f: ReplayCacheDifficultyFilter| difficulty_filter_name(f)),
{
    let all = ReplayCacheDifficultyFilter::all();
    let mut out: Vec<String> = Vec::new();
    for i in 0..all.len()
        invariant
            all@ == all_difficulty_filters(),
            texts(out@) == all@.take(i as int).map_values(|f: ReplayCacheDifficultyFilter| difficulty_filter_name(f)),
    {
        let ghost before = out@;
        let name = String::from_str(filter_name(all[i]));
        out.push(name);
        proof {
            assert(texts(out@) =~= texts(before).push(difficulty_filter_name(all@[i as int])));
            assert(all@.take(i + 1) =~= all@.take(i as int).push(all@[i as int]));
            assert(texts(out@) =~= all@.take(i + 1).map_values(|f: ReplayCacheDifficultyFilter| difficulty_filter_name(f)));
        }
    }
    proof {
        assert(all@.take(all@.len() as int) =~= all@);
    }
    out
}

fn parse_filter_names(names: &Vec<String>) -> (r: Vec<ReplayCacheDifficultyFilter>)
    ensures
        r@ == parse_filters(texts(names@)),
{
    let mut out: Vec<ReplayCacheDifficultyFilter> = Vec::new();
    for i in 0..names.len()
        invariant
            out@ == parse_filters(texts(names@).take(i as int)),
    {
        let parsed = ReplayCacheDifficultyFilter::from_query_value(names[i].as_str());
        proof {
            assert(texts(names@).take(i + 1).drop_last() =~= texts(names@).take(i as int));
        }
        match parsed {
            Some(f) => out.push(f),
            None => {},
        }
    }
    proof {
        assert(texts(names@).take(names@.len() as int) =~= texts(names@));
    }
    out
}

/// The names of all filters read back give all filters, in order.
#[verifier::spinoff_prover]
pub proof fn law_default_filters_are_all()
    ensures
        parse_filters(all_difficulty_filters().map_values(|f: ReplayCacheDifficultyFilter| difficulty_filter_name(f)))
            == all_difficulty_filters(),
{
    reveal_strlit("Casual");
    reveal_strlit("Normal");
    reveal_strlit("Hard");
    reveal_strlit("Brutal");
    reveal_strlit("BrutalPlus1");
    reveal_strlit("BrutalPlus2");
    reveal_strlit("BrutalPlus3");
    reveal_strlit("BrutalPlus4");
    reveal_strlit("BrutalPlus5");
    reveal_strlit("BrutalPlus6");
    let names = all_difficulty_filters().map_values(|f: ReplayCacheDifficultyFilter| difficulty_filter_name(f));
    assert forall|i: int| 0 <= i < 10 implies trim_seq(#[trigger] names[i]) == names[i] by {
        crate::text::lemma_trim_plain(names[i]);
    }
    reveal_with_fuel(parse_filters, 11);
    assert(parse_filters(names) =~= all_difficulty_filters());
}

/// Each difficulty filter reads back from its own name, and the ten filters are distinct.
#[verifier::spinoff_prover]
#[verifier::rlimit(60)]
pub proof fn law_filter_names_read_back(f: ReplayCacheDifficultyFilter)
    ensures
        difficulty_filter_for(trim_seq(difficulty_filter_name(f))) == Some(f),
        all_difficulty_filters().len() == 10,
        all_difficulty_filters().contains(f),
        forall|i: int, j: int|
            0 <= i < j < 10 ==> #[trigger] all_difficulty_filters()[i] != #[trigger] all_difficulty_filters()[j],
{
    law_default_filters_are_all();
    let names = all_difficulty_filters().map_values(|g: ReplayCacheDifficultyFilter| difficulty_filter_name(g));
    reveal_with_fuel(parse_filters, 11);
    let k: int = match f {
        ReplayCacheDifficultyFilter::Casual => 0,
        ReplayCacheDifficultyFilter::Normal => 1,
        ReplayCacheDifficultyFilter::Hard => 2,
        ReplayCacheDifficultyFilter::Brutal => 3,
        ReplayCacheDifficultyFilter::BrutalPlus1 => 4,
        ReplayCacheDifficultyFilter::BrutalPlus2 => 5,
        ReplayCacheDifficultyFilter::BrutalPlus3 => 6,
        ReplayCacheDifficultyFilter::BrutalPlus4 => 7,
        ReplayCacheDifficultyFilter::BrutalPlus5 => 8,
        ReplayCacheDifficultyFilter::BrutalPlus6 => 9,
    };
    assert(all_difficulty_filters()[k] == f);
    lemma_parse_each(names, k);
}

/// When every name reads as a filter, each filter of the parse is the reading of its name.
proof fn lemma_parse_each(names: Seq<Seq<char>>, k: int)
    requires
        0 <= k < names.len(),
        forall|i: int| 0 <= i < names.len() ==> #[trigger] difficulty_filter_for(trim_seq(names[i])) is Some,
    ensures
        parse_filters(names).len() == names.len(),
        parse_filters(names)[k] == difficulty_filter_for(trim_seq(names[k]))->0,
    decreases names.len(),
{
    if k < names.len() - 1 {
        assert forall|i: int| 0 <= i < names.drop_last().len() implies #[trigger] difficulty_filter_for(
            trim_seq(names.drop_last()[i]),
        ) is Some by {
            assert(names.drop_last()[i] == names[i]);
        }
        lemma_parse_each(names.drop_last(), k);
        assert(names.drop_last()[k] == names[k]);
    } else {
        assert(difficulty_filter_for(trim_seq(names.last())) is Some);
        if names.len() > 1 {
            assert forall|i: int| 0 <= i < names.drop_last().len() implies #[trigger] difficulty_filter_for(
                trim_seq(names.drop_last()[i]),
            ) is Some by {
                assert(names.drop_last()[i] == names[i]);
            }
            lemma_parse_each(names.drop_last(), 0);
        } else {
            assert(parse_filters(names.drop_last()) =~= Seq::<ReplayCacheDifficultyFilter>::empty());
        }
    }
}

/// Games-list requests of the front end.
pub struct ReplayCommands;

impl ReplayCommands {
    /// The games page query for `request` (defaults where parts are missing) and the request
    /// line to log.
    pub fn replays_page_query(request: Option<ConfigReplaysPageRequest>) -> (r: (ReplayCacheGamesPageQuery, String))
        ensures
            ({
                let req = match request {
                    Some(q) => q,
                    None => ConfigReplaysPageRequest {
                        limit: None,
                        page: None,
                        rows_per_page: None,
                        search: None,
                        sort_key: None,
                        sort_direction: None,
                        difficulty_filters: None,
                        include_normal_games: None,
                        include_mutation_games: None,
                    },
                };
                let search = match opt_view(req.search) {
                    Some(s) => s,
                    None => Seq::empty(),
                };
                &&& r.0@.page.rows_view() == requested_rows(req)
                &&& r.0@.page.offset_view() == (requested_page(req) - 1) * requested_rows(req)
                    || (r.0@.page.offset_view() == usize::MAX && (requested_page(req) - 1) * requested_rows(req)
                    > usize::MAX)
                &&& r.0@.search == search
                &&& r.0@.sort_key == match opt_view(req.sort_key) {
                    Some(k) => game_sort_key_for(trim_seq(k)),
                    None => ReplayCacheGameSortKey::Time,
                }
                &&& r.0@.sort_direction == match opt_view(req.sort_direction) {
                    Some(v) => if lower_seq(trim_seq(v)) == "asc"@ {
                        ReplayCacheSortDirection::Asc
                    } else if lower_seq(trim_seq(v)) == "desc"@ {
                        ReplayCacheSortDirection::Desc
                    } else {
                        ReplayCacheSortDirection::Desc
                    },
                    None => ReplayCacheSortDirection::Desc,
                }
                &&& r.0@.difficulty_filters == parse_filters(requested_filter_names(req))
                &&& r.0@.include_normal_games == match req.include_normal_games {
                    Some(b) => b,
                    None => true,
                }
                &&& r.0@.include_mutation_games == match req.include_mutation_games {
                    Some(b) => b,
                    None => true,
                }
                &&& r.1@ == "/config/replays?page="@ + decimal_seq(requested_page(req) as nat) + "&rows_per_page="@
                    + decimal_seq(requested_rows(req) as nat) + "&search="@ + search
            }),
    {
        let req = match request {
            Some(q) => q,
            None => ConfigReplaysPageRequest {
                limit: None,
                page: None,
                rows_per_page: None,
                search: None,
                sort_key: None,
                sort_direction: None,
                difficulty_filters: None,
                include_normal_games: None,
                include_mutation_games: None,
            },
        };
        let page: usize = match req.page {
            Some(p) => if p < 1 {
                1
            } else {
                p
            },
            None => 1,
        };
        let asked: usize = match req.rows_per_page {
            Some(n) => n,
            None => match req.limit {
                Some(n) => n,
                None => DEFAULT_CONFIG_ROWS_PER_PAGE,
            },
        };
        let rows: usize = if asked < 1 {
            1
        } else {
            asked
        };
        let search = match req.search {
            Some(s) => s,
            None => String::new(),
        };
        let sort_key = match &req.sort_key {
            Some(k) => ReplayCacheGameSortKey::from_query_value(Some(k.as_str())),
            None => ReplayCacheGameSortKey::from_query_value(None),
        };
        let sort_direction = match &req.sort_direction {
            Some(d) => ReplayCacheSortDirection::from_query_value(Some(d.as_str()), ReplayCacheSortDirection::Desc),
            None => ReplayCacheSortDirection::from_query_value(None, ReplayCacheSortDirection::Desc),
        };
        let names = match req.difficulty_filters {
            Some(v) => v,
            None => all_filter_names(),
        };
        let filters = parse_filter_names(&names);
        let include_normal_games = match req.include_normal_games {
            Some(b) => b,
            None => true,
        };
        let include_mutation_games = match req.include_mutation_games {
            Some(b) => b,
            None => true,
        };
        let mut path = String::from_str("/config/replays?page=");
        path.append(decimal_string(page as u64).as_str());
        path.append("&rows_per_page=");
        path.append(decimal_string(rows as u64).as_str());
        path.append("&search=");
        path.append(search.as_str());
        let query = ReplayCacheGamesPageQuery::new(
            ReplayCachePage::new(page, rows),
            search,
            sort_key,
            sort_direction,
            filters,
            include_normal_games,
            include_mutation_games,
        );
        (query, path)
    }
}

/// What the games list reads of a replay.
#[derive(Clone, Debug)]
pub struct GamesRowFields {
    pub file: String,
    pub result: String,
    pub map: String,
    pub difficulty: String,
    pub enemy: String,
    pub slot1_name: String,
    pub slot1_commander: String,
    pub slot2_name: String,
    pub slot2_commander: String,
    pub mutators: Vec<String>,
    pub weekly: bool,
    pub brutal_plus: u64,
    pub date: u64,
    /// The replay's length as an ordering key: lengths sort as these numbers do.
    pub length_key: u64,
}

/// Whether a replay passes the normal/mutation switches: a mutation game is a weekly or one
/// with mutators.
pub open spec fn matches_mode_spec(row: GamesRowFields, include_normal: bool, include_mutation: bool) -> bool {
    let is_mutation = row.weekly || row.mutators@.len() > 0;
    if !include_normal && !include_mutation {
        false
    } else if !include_normal {
        is_mutation
    } else if !include_mutation {
        !is_mutation
    } else {
        true
    }
}

/// Whether a replay has the difficulty a single filter names: its Brutal+ level, or (with no
/// Brutal+ level) the difficulty text, where Brutal takes any text but the easier three.
pub open spec fn matches_single_difficulty_spec(row: GamesRowFields, filter: ReplayCacheDifficultyFilter) -> bool {
    let d = lower_seq(trim_seq(row.difficulty@));
    match filter {
        ReplayCacheDifficultyFilter::BrutalPlus1 => row.brutal_plus == 1,
        ReplayCacheDifficultyFilter::BrutalPlus2 => row.brutal_plus == 2,
        ReplayCacheDifficultyFilter::BrutalPlus3 => row.brutal_plus == 3,
        ReplayCacheDifficultyFilter::BrutalPlus4 => row.brutal_plus == 4,
        ReplayCacheDifficultyFilter::BrutalPlus5 => row.brutal_plus == 5,
        ReplayCacheDifficultyFilter::BrutalPlus6 => row.brutal_plus == 6,
        ReplayCacheDifficultyFilter::Brutal => row.brutal_plus == 0 && d != "casual"@ && d != "normal"@ && d
            != "hard"@,
        ReplayCacheDifficultyFilter::Casual => row.brutal_plus == 0 && d == "casual"@,
        ReplayCacheDifficultyFilter::Normal => row.brutal_plus == 0 && d == "normal"@,
        ReplayCacheDifficultyFilter::Hard => row.brutal_plus == 0 && d == "hard"@,
    }
}

/// Whether a replay passes the difficulty filters: none selected keeps nothing, all selected
/// keeps everything, else one of them must match.
pub open spec fn matches_difficulty_spec(row: GamesRowFields, filters: Seq<ReplayCacheDifficultyFilter>) -> bool {
    if filters.len() == 0 {
        false
    } else if forall|i: int| 0 <= i < 10 ==> filters.contains(#[trigger] all_difficulty_filters()[i]) {
        true
    } else {
        exists|i: int| 0 <= i < filters.len() && matches_single_difficulty_spec(row, #[trigger] filters[i])
    }
}

/// Whether `value`, in lower case, contains `search` (already in lower case).
pub open spec fn contains_search_spec(value: Seq<char>, search: Seq<char>) -> bool {
    contains_seq(lower_seq(value), search)
}

/// Whether a replay matches the search text (trimmed, in lower case): in one of its texts, or
/// in one of its mutators. A blank search matches every replay.
pub open spec fn matches_search_spec(row: GamesRowFields, search: Seq<char>) -> bool {
    let s = lower_seq(trim_seq(search));
    ||| s.len() == 0
    ||| contains_search_spec(row.file@, s)
    ||| contains_search_spec(row.result@, s)
    ||| contains_search_spec(row.map@, s)
    ||| contains_search_spec(row.difficulty@, s)
    ||| contains_search_spec(row.enemy@, s)
    ||| contains_search_spec(row.slot1_name@, s)
    ||| contains_search_spec(row.slot2_name@, s)
    ||| contains_search_spec(row.slot1_commander@, s)
    ||| contains_search_spec(row.slot2_commander@, s)
    ||| exists|i: int| 0 <= i < row.mutators@.len() && contains_search_spec((#[trigger] row.mutators@[i])@, s)
}

/// A replay passes the normal/mutation switches exactly when the switch for its own kind is
/// on: a mutation game (a weekly, or one with mutators) when mutations are shown, any other
/// game when normal games are shown.
pub proof fn law_mode_filter_follows_kind(row: GamesRowFields, include_normal: bool, include_mutation: bool)
    ensures
        (row.weekly || row.mutators@.len() > 0) ==> matches_mode_spec(row, include_normal, include_mutation)
            == include_mutation,
        !(row.weekly || row.mutators@.len() > 0) ==> matches_mode_spec(row, include_normal, include_mutation)
            == include_normal,
{
}

/// A replay matches a search exactly when the search, trimmed and in lower case, is blank or
/// occurs in the lower-cased text of one of its fields (file, result, map, difficulty, enemy,
/// both slot names, both commanders) or of one of its mutators.
pub proof fn law_search_looks_in_every_field(row: GamesRowFields, search: Seq<char>)
    ensures
        lower_seq(trim_seq(search)).len() == 0 ==> matches_search_spec(row, search),
        contains_seq(lower_seq(row.file@), lower_seq(trim_seq(search))) ==> matches_search_spec(row, search),
        contains_seq(lower_seq(row.result@), lower_seq(trim_seq(search))) ==> matches_search_spec(row, search),
        contains_seq(lower_seq(row.map@), lower_seq(trim_seq(search))) ==> matches_search_spec(row, search),
        contains_seq(lower_seq(row.difficulty@), lower_seq(trim_seq(search))) ==> matches_search_spec(row, search),
        contains_seq(lower_seq(row.enemy@), lower_seq(trim_seq(search))) ==> matches_search_spec(row, search),
        contains_seq(lower_seq(row.slot1_name@), lower_seq(trim_seq(search))) ==> matches_search_spec(row, search),
        contains_seq(lower_seq(row.slot2_name@), lower_seq(trim_seq(search))) ==> matches_search_spec(row, search),
        contains_seq(lower_seq(row.slot1_commander@), lower_seq(trim_seq(search))) ==> matches_search_spec(row, search),
        contains_seq(lower_seq(row.slot2_commander@), lower_seq(trim_seq(search))) ==> matches_search_spec(row, search),
        forall|i: int|
            0 <= i < row.mutators@.len() && contains_seq(lower_seq((#[trigger] row.mutators@[i])@), lower_seq(trim_seq(search)))
                ==> matches_search_spec(row, search),
        matches_search_spec(row, search) ==> {
            let s = lower_seq(trim_seq(search));
            ||| s.len() == 0
            ||| contains_seq(lower_seq(row.file@), s)
            ||| contains_seq(lower_seq(row.result@), s)
            ||| contains_seq(lower_seq(row.map@), s)
            ||| contains_seq(lower_seq(row.difficulty@), s)
            ||| contains_seq(lower_seq(row.enemy@), s)
            ||| contains_seq(lower_seq(row.slot1_name@), s)
            ||| contains_seq(lower_seq(row.slot2_name@), s)
            ||| contains_seq(lower_seq(row.slot1_commander@), s)
            ||| contains_seq(lower_seq(row.slot2_commander@), s)
            ||| exists|i: int| 0 <= i < row.mutators@.len() && contains_seq(lower_seq((#[trigger] row.mutators@[i])@), s)
        },
{
    let s = lower_seq(trim_seq(search));
    assert forall|i: int|
        0 <= i < row.mutators@.len() && contains_seq(lower_seq((#[trigger] row.mutators@[i])@), s)
            implies matches_search_spec(row, search) by {
        assert(contains_search_spec(row.mutators@[i]@, s));
    }
}

/// Which replays the games list shows, before paging.
pub struct GamesPageReplayOps;

impl GamesPageReplayOps {
    pub fn matches_mode_filter(row: &GamesRowFields, include_normal_games: bool, include_mutation_games: bool) -> (r: bool)
        ensures
            r == matches_mode_spec(*row, include_normal_games, include_mutation_games),
    {
        let is_mutation = row.weekly || row.mutators.len() > 0;
        if !include_normal_games && !include_mutation_games {
            return false;
        }
        if !include_normal_games {
            return is_mutation;
        }
        if !include_mutation_games {
            return !is_mutation;
        }
        true
    }

    pub fn matches_single_difficulty_filter(row: &GamesRowFields, filter: ReplayCacheDifficultyFilter) -> (r: bool)
        ensures
            r == matches_single_difficulty_spec(*row, filter),
    {
        if let Some(level) = filter.brutal_plus_level() {
            return row.brutal_plus == level as u64;
        }
        let d = to_ascii_lowercase(trim(row.difficulty.as_str()).as_str());
        proof {
            reveal_strlit("casual");
            reveal_strlit("normal");
            reveal_strlit("hard");
            reveal_strlit("brutal");
        }
        if filter == ReplayCacheDifficultyFilter::Brutal {
            return row.brutal_plus == 0 && !(str_eq(d.as_str(), "casual") || str_eq(d.as_str(), "normal") || str_eq(
                d.as_str(),
                "hard",
            ));
        }
        match filter.regular_label() {
            Some(label) => row.brutal_plus == 0 && str_eq(d.as_str(), label),
            None => false,
        }
    }

    pub fn matches_difficulty_filter(row: &GamesRowFields, filters: &[ReplayCacheDifficultyFilter]) -> (r: bool)
        ensures
            r == matches_difficulty_spec(*row, filters@),
    {
        if filters.len() == 0 {
            return false;
        }
        let all = ReplayCacheDifficultyFilter::all();
        let mut every = true;
        let mut k: usize = 0;
        while k < all.len()
            invariant
                all@ == all_difficulty_filters(),
                k <= all@.len(),
                every == forall|i: int| 0 <= i < k ==> filters@.contains(#[trigger] all_difficulty_filters()[i]),
            decreases all@.len() - k,
        {
            let mut found = false;
            let mut j: usize = 0;
            while j < filters.len()
                invariant
                    j <= filters@.len(),
                    k < all@.len(),
                    found == exists|m: int| 0 <= m < j && filters@[m] == all@[k as int],
                decreases filters@.len() - j,
            {
                if filters[j] == all[k] {
                    found = true;
                }
                j = j + 1;
            }
            proof {
                if found {
                    let m = choose|m: int| 0 <= m < j && filters@[m] == all@[k as int];
                    assert(filters@.contains(all_difficulty_filters()[k as int]));
                }
                if !found {
                    assert(!filters@.contains(all_difficulty_filters()[k as int]));
                }
            }
            every = every && found;
            k = k + 1;
        }
        if every {
            return true;
        }
        let mut i: usize = 0;
        while i < filters.len()
            invariant
                i <= filters@.len(),
                !(forall|m: int| 0 <= m < 10 ==> filters@.contains(#[trigger] all_difficulty_filters()[m])),
                forall|m: int| 0 <= m < i ==> !matches_single_difficulty_spec(*row, #[trigger] filters@[m]),
            decreases filters@.len() - i,
        {
            if Self::matches_single_difficulty_filter(row, filters[i]) {
                return true;
            }
            i = i + 1;
        }
        false
    }

    /// Whether `value`, in lower case, contains `search`.
    pub fn contains_search(value: &str, search: &str) -> (r: bool)
        ensures
            r == contains_search_spec(value@, search@),
    {
        let v = lower_chars(&chars_of(value));
        let s = chars_of(search);
        contains_chars(&v, &s)
    }

    pub fn matches_search(row: &GamesRowFields, search: &str) -> (r: bool)
        ensures
            r == matches_search_spec(*row, search@),
    {
        let s = to_ascii_lowercase(trim(search).as_str());
        let s = s.as_str();
        if s.is_empty() {
            return true;
        }
        if Self::contains_search(row.file.as_str(), s) || Self::contains_search(row.result.as_str(), s)
            || Self::contains_search(row.map.as_str(), s) || Self::contains_search(row.difficulty.as_str(), s)
            || Self::contains_search(row.enemy.as_str(), s) || Self::contains_search(row.slot1_name.as_str(), s)
            || Self::contains_search(row.slot2_name.as_str(), s) || Self::contains_search(
            row.slot1_commander.as_str(),
            s,
        ) || Self::contains_search(row.slot2_commander.as_str(), s) {
            return true;
        }
        let mut i: usize = 0;
        while i < row.mutators.len()
            invariant
                i <= row.mutators@.len(),
                s@ == lower_seq(trim_seq(search@)),
                forall|m: int| 0 <= m < i ==> !contains_search_spec((#[trigger] row.mutators@[m])@, s@),
            decreases row.mutators@.len() - i,
        {
            if Self::contains_search(row.mutators[i].as_str(), s) {
                return true;
            }
            i = i + 1;
        }
        false
    }

    /// Whether a replay is shown for a games page query.
    pub fn matches_query(row: &GamesRowFields, query: &ReplayCacheGamesPageQuery) -> (r: bool)
        ensures
            r == (matches_mode_spec(*row, query@.include_normal_games, query@.include_mutation_games)
                && matches_difficulty_spec(*row, query@.difficulty_filters) && matches_search_spec(*row, query@.search)),
    {
        Self::matches_mode_filter(row, query.include_normal_games(), query.include_mutation_games())
            && Self::matches_difficulty_filter(row, query.difficulty_filters()) && Self::matches_search(
            row,
            query.search(),
        )
    }
}


/// `a - b`, stopping at 0.
pub open spec fn saturating_diff(a: usize, b: usize) -> usize {
    if a >= b {
        (a - b) as usize
    } else {
        0
    }
}

/// `a + b`, stopping at the largest `usize`.
pub open spec fn saturating_total(a: usize, b: usize) -> usize {
    if a + b > usize::MAX {
        usize::MAX
    } else {
        (a + b) as usize
    }
}

impl GamesPageReplayOps {
    /// Which cached rows a page needs when `transient_count` replays not yet cached are merged
    /// in: the cached window (offset and limit) to read, and where the page starts in the
    /// merged, sorted rows.
    pub fn merged_page_window(requested_offset: usize, requested_limit: usize, transient_count: usize) -> (r: (
        usize,
        usize,
        usize,
    ))
        ensures
            r.0 == saturating_diff(requested_offset, transient_count),
            r.1 == saturating_total(requested_limit, transient_count),
            r.2 == saturating_diff(requested_offset, r.0),
    {
        let cached_offset = requested_offset.saturating_sub(transient_count);
        let cached_limit = requested_limit.saturating_add(transient_count);
        let page_offset = requested_offset.saturating_sub(cached_offset);
        (cached_offset, cached_limit, page_offset)
    }

    /// The number of rows of the merged list: the cached total and the replays not yet cached.
    pub fn merged_total_rows(cached_total_rows: usize, transient_count: usize) -> (r: usize)
        ensures
            r == saturating_total(cached_total_rows, transient_count),
    {
        cached_total_rows.saturating_add(transient_count)
    }
}

/// The merged page starts where it was asked to: the cached window starts at most the number
/// of uncached replays earlier, and the page begins that many rows into it.
pub proof fn law_merged_page_starts_at_request(requested_offset: usize, transient_count: usize)
    ensures
        saturating_diff(requested_offset, transient_count) + saturating_diff(
            requested_offset,
            saturating_diff(requested_offset, transient_count),
        ) == requested_offset,
        saturating_diff(requested_offset, saturating_diff(requested_offset, transient_count)) <= transient_count,
{
}

} // verus!

verus! {

/// `-1`, `0` or `1` as `a` is below, equal to or above `b`.
pub open spec fn order_of_u64(a: u64, b: u64) -> int {
    if a < b {
        -1
    } else if a > b {
        1
    } else {
        0
    }
}

/// An ascending comparison made to follow `d`.
pub open spec fn directed(o: int, d: ReplayCacheSortDirection) -> int {
    match d {
        ReplayCacheSortDirection::Asc => o,
        ReplayCacheSortDirection::Desc => -o,
    }
}

/// The text a replay is sorted by for a text key, in ASCII lower case (empty for length and
/// time).
pub open spec fn sort_text_spec(row: GamesRowFields, key: ReplayCacheGameSortKey) -> Seq<char> {
    match key {
        ReplayCacheGameSortKey::MapName => lower_seq(row.map@),
        ReplayCacheGameSortKey::Result => lower_seq(row.result@),
        ReplayCacheGameSortKey::PlayerOne => lower_seq(row.slot1_name@ + " "@ + row.slot1_commander@),
        ReplayCacheGameSortKey::PlayerTwo => lower_seq(row.slot2_name@ + " "@ + row.slot2_commander@),
        ReplayCacheGameSortKey::Enemy => lower_seq(row.enemy@),
        ReplayCacheGameSortKey::Difficulty => lower_seq(row.difficulty@),
        ReplayCacheGameSortKey::Mutators => lower_seq(join_with(texts(row.mutators@), " "@)),
        ReplayCacheGameSortKey::Actions => lower_seq(row.file@),
        ReplayCacheGameSortKey::Length => Seq::empty(),
        ReplayCacheGameSortKey::Time => Seq::empty(),
    }
}

/// The order of two replays by the chosen key alone.
pub open spec fn primary_order(l: GamesRowFields, r: GamesRowFields, key: ReplayCacheGameSortKey, d: ReplayCacheSortDirection) -> int {
    match key {
        ReplayCacheGameSortKey::Length => directed(order_of_u64(l.length_key, r.length_key), d),
        ReplayCacheGameSortKey::Time => directed(order_of_u64(l.date, r.date), d),
        _ => directed(seq_order(sort_text_spec(l, key), sort_text_spec(r, key)), d),
    }
}

/// The order of two replays in the games list: by the chosen key, then by date and file name
/// (in the chosen direction when sorting by time, newest first otherwise).
pub open spec fn row_order(l: GamesRowFields, r: GamesRowFields, key: ReplayCacheGameSortKey, d: ReplayCacheSortDirection) -> int {
    let p = primary_order(l, r, key, d);
    if p != 0 {
        p
    } else {
        let td = if key == ReplayCacheGameSortKey::Time {
            d
        } else {
            ReplayCacheSortDirection::Desc
        };
        let dd = directed(order_of_u64(l.date, r.date), td);
        if dd != 0 {
            dd
        } else {
            directed(seq_order(l.file@, r.file@), td)
        }
    }
}

/// Where a replay goes among sorted ones: before the first that it sorts strictly before.
pub open spec fn row_insert_position(s: Seq<GamesRowFields>, e: GamesRowFields, key: ReplayCacheGameSortKey, d: ReplayCacheSortDirection) -> int
    decreases s.len(),
{
    if s.len() == 0 {
        0
    } else if row_order(e, s[0], key, d) < 0 {
        0
    } else {
        1 + row_insert_position(s.drop_first(), e, key, d)
    }
}

/// The replays sorted stably: each put after the earlier ones it does not sort before.
pub open spec fn sort_rows_spec(s: Seq<GamesRowFields>, key: ReplayCacheGameSortKey, d: ReplayCacheSortDirection) -> Seq<GamesRowFields>
    decreases s.len(),
{
    if s.len() == 0 {
        Seq::empty()
    } else {
        let prev = sort_rows_spec(s.drop_last(), key, d);
        prev.insert(row_insert_position(prev, s.last(), key, d), s.last())
    }
}

/// Each replay sorts no later than the next.
pub open spec fn rows_sorted(s: Seq<GamesRowFields>, key: ReplayCacheGameSortKey, d: ReplayCacheSortDirection) -> bool {
    forall|i: int| 0 <= i < s.len() - 1 ==> row_order(#[trigger] s[i], s[i + 1], key, d) <= 0
}

proof fn lemma_row_order_antisymmetric(a: GamesRowFields, b: GamesRowFields, key: ReplayCacheGameSortKey, d: ReplayCacheSortDirection)
    ensures
        row_order(a, b, key, d) == -row_order(b, a, key, d),
{
    lemma_seq_order_basics(sort_text_spec(a, key), sort_text_spec(b, key));
    lemma_seq_order_basics(a.file@, b.file@);
}

proof fn lemma_row_insert_position(s: Seq<GamesRowFields>, e: GamesRowFields, key: ReplayCacheGameSortKey, d: ReplayCacheSortDirection)
    ensures
        0 <= row_insert_position(s, e, key, d) <= s.len(),
        forall|k: int| 0 <= k < row_insert_position(s, e, key, d) ==> row_order(e, #[trigger] s[k], key, d) >= 0,
        row_insert_position(s, e, key, d) < s.len() ==> row_order(e, s[row_insert_position(s, e, key, d)], key, d) < 0,
    decreases s.len(),
{
    if s.len() > 0 && row_order(e, s[0], key, d) >= 0 {
        lemma_row_insert_position(s.drop_first(), e, key, d);
        assert forall|k: int| 0 <= k < row_insert_position(s, e, key, d) implies row_order(e, #[trigger] s[k], key, d) >= 0 by {
            if k > 0 {
                assert(s[k] == s.drop_first()[k - 1]);
            }
        }
    }
}

proof fn lemma_insert_row_sorted(s: Seq<GamesRowFields>, e: GamesRowFields, key: ReplayCacheGameSortKey, d: ReplayCacheSortDirection)
    requires
        rows_sorted(s, key, d),
    ensures
        rows_sorted(s.insert(row_insert_position(s, e, key, d), e), key, d),
        s.insert(row_insert_position(s, e, key, d), e).to_multiset() == s.to_multiset().insert(e),
{
    let p = row_insert_position(s, e, key, d);
    lemma_row_insert_position(s, e, key, d);
    let t = s.insert(p, e);
    assert forall|i: int| 0 <= i < t.len() - 1 implies row_order(#[trigger] t[i], t[i + 1], key, d) <= 0 by {
        if i + 1 < p {
            assert(t[i] == s[i] && t[i + 1] == s[i + 1]);
        } else if i + 1 == p {
            assert(t[i] == s[i] && t[i + 1] == e);
            lemma_row_order_antisymmetric(s[i], e, key, d);
        } else if i == p {
            assert(t[i] == e && t[i + 1] == s[p]);
        } else {
            assert(t[i] == s[i - 1] && t[i + 1] == s[i]);
        }
    }
    vstd::seq_lib::to_multiset_insert(s, p, e);
}

/// The sorted replays are the same replays, each sorting no later than the next.
pub proof fn law_sorted_rows_are_sorted_permutation(s: Seq<GamesRowFields>, key: ReplayCacheGameSortKey, d: ReplayCacheSortDirection)
    ensures
        rows_sorted(sort_rows_spec(s, key, d), key, d),
        sort_rows_spec(s, key, d).to_multiset() == s.to_multiset(),
        sort_rows_spec(s, key, d).len() == s.len(),
    decreases s.len(),
{
    if s.len() > 0 {
        law_sorted_rows_are_sorted_permutation(s.drop_last(), key, d);
        let prev = sort_rows_spec(s.drop_last(), key, d);
        lemma_insert_row_sorted(prev, s.last(), key, d);
        lemma_row_insert_position(prev, s.last(), key, d);
        assert(sort_rows_spec(s, key, d) == prev.insert(row_insert_position(prev, s.last(), key, d), s.last()));
        assert(s =~= s.drop_last().push(s.last()));
        vstd::seq_lib::to_multiset_build(s.drop_last(), s.last());
        assert(s.to_multiset() == s.drop_last().to_multiset().insert(s.last()));
    } else {
        assert(s =~= Seq::<GamesRowFields>::empty());
        assert(sort_rows_spec(s, key, d) =~= s);
    }
}

fn compare_u64(a: u64, b: u64) -> (r: i8)
    ensures
        r as int == order_of_u64(a, b),
{
    if a < b {
        -1
    } else if a > b {
        1
    } else {
        0
    }
}

fn apply_direction(o: i8, d: ReplayCacheSortDirection) -> (r: i8)
    requires
        -1 <= o <= 1,
    ensures
        r as int == directed(o as int, d),
        -1 <= r <= 1,
{
    match d {
        ReplayCacheSortDirection::Asc => o,
        ReplayCacheSortDirection::Desc => -o,
    }
}

fn lower_joined(a: &str, b: &str) -> (r: String)
    ensures
        r@ == lower_seq(a@ + " "@ + b@),
{
    let mut s = String::from_str(a);
    s.append(" ");
    s.append(b);
    to_ascii_lowercase(s.as_str())
}

impl GamesPageReplayOps {
    /// The text a replay is sorted by (see [`sort_text_spec`]).
    pub fn sort_text(row: &GamesRowFields, sort_key: ReplayCacheGameSortKey) -> (r: String)
        ensures
            r@ == sort_text_spec(*row, sort_key),
    {
        match sort_key {
            ReplayCacheGameSortKey::MapName => to_ascii_lowercase(row.map.as_str()),
            ReplayCacheGameSortKey::Result => to_ascii_lowercase(row.result.as_str()),
            ReplayCacheGameSortKey::PlayerOne => lower_joined(row.slot1_name.as_str(), row.slot1_commander.as_str()),
            ReplayCacheGameSortKey::PlayerTwo => lower_joined(row.slot2_name.as_str(), row.slot2_commander.as_str()),
            ReplayCacheGameSortKey::Enemy => to_ascii_lowercase(row.enemy.as_str()),
            ReplayCacheGameSortKey::Difficulty => to_ascii_lowercase(row.difficulty.as_str()),
            ReplayCacheGameSortKey::Mutators => {
                let joined = join_strings(&row.mutators, " ");
                to_ascii_lowercase(joined.as_str())
            },
            ReplayCacheGameSortKey::Actions => to_ascii_lowercase(row.file.as_str()),
            ReplayCacheGameSortKey::Length => String::new(),
            ReplayCacheGameSortKey::Time => String::new(),
        }
    }

    /// The order of two replays by the query's key alone: -1, 0 or 1 (see [`primary_order`]).
    pub fn compare_primary(left: &GamesRowFields, right: &GamesRowFields, query: &ReplayCacheGamesPageQuery) -> (r: i8)
        ensures
            r as int == primary_order(*left, *right, query@.sort_key, query@.sort_direction),
            -1 <= r <= 1,
    {
        let key = query.sort_key();
        let d = query.sort_direction();
        match key {
            ReplayCacheGameSortKey::Length => apply_direction(compare_u64(left.length_key, right.length_key), d),
            ReplayCacheGameSortKey::Time => apply_direction(compare_u64(left.date, right.date), d),
            _ => {
                let a = Self::sort_text(left, key);
                let b = Self::sort_text(right, key);
                proof {
                    lemma_seq_order_basics(a@, b@);
                }
                apply_direction(compare_str(a.as_str(), b.as_str()), d)
            },
        }
    }

    /// The order of two replays in the games list: -1, 0 or 1 (see [`row_order`]).
    pub fn compare_rows(left: &GamesRowFields, right: &GamesRowFields, query: &ReplayCacheGamesPageQuery) -> (r: i8)
        ensures
            r as int == row_order(*left, *right, query@.sort_key, query@.sort_direction),
    {
        let primary = Self::compare_primary(left, right, query);
        if primary != 0 {
            return primary;
        }
        let time_direction = if query.sort_key() == ReplayCacheGameSortKey::Time {
            query.sort_direction()
        } else {
            ReplayCacheSortDirection::Desc
        };
        let date_order = apply_direction(compare_u64(left.date, right.date), time_direction);
        if date_order != 0 {
            return date_order;
        }
        proof {
            lemma_seq_order_basics(left.file@, right.file@);
        }
        apply_direction(compare_str(left.file.as_str(), right.file.as_str()), time_direction)
    }

    /// The replays in games-list order, equal ones kept in their order.
    pub fn sort_rows(rows: Vec<GamesRowFields>, query: &ReplayCacheGamesPageQuery) -> (r: Vec<GamesRowFields>)
        ensures
            r@ == sort_rows_spec(rows@, query@.sort_key, query@.sort_direction),
    {
        let ghost key = query@.sort_key;
        let ghost d = query@.sort_direction;
        let ghost orig = rows@;
        let mut rest = rows;
        let mut out: Vec<GamesRowFields> = Vec::new();
        let n = rest.len();
        let mut i: usize = 0;
        proof {
            assert(orig.skip(0) =~= orig);
        }
        while i < n
            invariant
                n == orig.len(),
                i <= n,
                rest@ == orig.skip(i as int),
                out@ == sort_rows_spec(orig.take(i as int), key, d),
                key == query@.sort_key,
                d == query@.sort_direction,
            decreases n - i,
        {
            let e = rest.remove(0);
            proof {
                assert(e == orig[i as int]);
                assert(rest@ =~= orig.skip(i + 1));
            }
            let ghost sv = out@;
            let mut p: usize = 0;
            proof {
                assert(sv.skip(0) =~= sv);
            }
            while p < out.len() && Self::compare_rows(&e, &out[p], query) >= 0
                invariant
                    p <= out@.len(),
                    sv == out@,
                    key == query@.sort_key,
                    d == query@.sort_direction,
                    row_insert_position(sv, e, key, d) == p + row_insert_position(sv.skip(p as int), e, key, d),
                decreases out@.len() - p,
            {
                proof {
                    assert(sv.skip(p as int).drop_first() =~= sv.skip(p + 1));
                    assert(sv.skip(p as int)[0] == sv[p as int]);
                }
                p = p + 1;
            }
            proof {
                if p < sv.len() {
                    assert(sv.skip(p as int)[0] == sv[p as int]);
                }
                let t = orig.take(i + 1);
                assert(t.drop_last() =~= orig.take(i as int));
                assert(t.last() == e);
            }
            out.insert(p, e);
            i = i + 1;
        }
        proof {
            assert(orig.take(n as int) =~= orig);
        }
        out
    }
}

/// The rows `[offset, offset + limit)` of `s`, as far as `s` reaches.
pub open spec fn page_of(s: Seq<GamesRowFields>, offset: int, limit: int) -> Seq<GamesRowFields> {
    let start = if offset <= s.len() {
        offset
    } else {
        s.len() as int
    };
    let end = if start + limit <= s.len() {
        start + limit
    } else {
        s.len() as int
    };
    s.subrange(start, end)
}

impl GamesPageReplayOps {
    /// One page of the games list from the cached rows read for it (see
    /// [`GamesPageReplayOps::merged_page_window`]) and the replays not yet cached: all of them
    /// sorted, then the page's rows; and the number of rows over all pages.
    pub fn merged_page(
        cached_rows: Vec<GamesRowFields>,
        cached_total_rows: usize,
        transient_rows: Vec<GamesRowFields>,
        query: &ReplayCacheGamesPageQuery,
    ) -> (r: (Vec<GamesRowFields>, usize))
        ensures
            ({
                let offset = query@.page.offset_view();
                let page_offset = saturating_diff(offset, saturating_diff(offset, transient_rows@.len() as usize));
                r.0@ == page_of(
                    sort_rows_spec(cached_rows@ + transient_rows@, query@.sort_key, query@.sort_direction),
                    page_offset as int,
                    query@.page.rows_view() as int,
                )
            }),
            r.1 == saturating_total(cached_total_rows, transient_rows@.len() as usize),
    {
        let requested_offset = query.page().offset();
        let requested_limit = query.page().limit();
        let transient_count = transient_rows.len();
        let (_, _, page_offset) = Self::merged_page_window(requested_offset, requested_limit, transient_count);
        let total = Self::merged_total_rows(cached_total_rows, transient_count);
        let mut combined = cached_rows;
        let mut extra = transient_rows;
        combined.append(&mut extra);
        let mut sorted = Self::sort_rows(combined, query);
        let ghost all = sorted@;
        let start = if page_offset <= sorted.len() {
            page_offset
        } else {
            sorted.len()
        };
        let mut page = sorted.split_off(start);
        let end = if requested_limit <= page.len() {
            requested_limit
        } else {
            page.len()
        };
        page.truncate(end);
        proof {
            assert(page@ =~= page_of(all, page_offset as int, requested_limit as int));
        }
        (page, total)
    }
}

} // verus!
