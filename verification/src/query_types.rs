use vstd::prelude::*;

use std::collections::BTreeMap;

use crate::shared_types::LocalizedLabels;
use crate::text::{chars_eq_str, contains_seq, occurs_at, lower_chars, lower_seq, trim_seq, trimmed_chars};

verus! {

/// `serde_json::Value`, carried through the library without being read.
#[verifier::external_type_specification]
#[verifier::external_body]
pub struct ExJsonValue(serde_json::Value);

/// Which cached replays a read covers.
#[derive(Clone, Copy, Debug, Eq, PartialEq, Structural)]
pub enum ReplayCacheReadScope {
    All,
    DetailedOnly,
}

/// A read of cached replay entries: a scope and a row limit (0: no limit).
#[derive(Clone, Copy, Debug, Eq, PartialEq, Structural)]
pub struct ReplayCacheEntryQuery {
    scope: ReplayCacheReadScope,
    limit: usize,
}

impl ReplayCacheEntryQuery {
    pub closed spec fn scope_view(self) -> ReplayCacheReadScope {
        self.scope
    }

    pub closed spec fn limit_view(self) -> usize {
        self.limit
    }

    pub fn all(limit: usize) -> (r: Self)
        ensures
            r.scope_view() == ReplayCacheReadScope::All,
            r.limit_view() == limit,
    {
        Self { scope: ReplayCacheReadScope::All, limit }
    }

    pub fn detailed_only(limit: usize) -> (r: Self)
        ensures
            r.scope_view() == ReplayCacheReadScope::DetailedOnly,
            r.limit_view() == limit,
    {
        Self { scope: ReplayCacheReadScope::DetailedOnly, limit }
    }

    fn scope(&self) -> (r: ReplayCacheReadScope)
        ensures
            r == self.scope_view(),
    {
        self.scope
    }

    fn limit(&self) -> (r: usize)
        ensures
            r == self.limit_view(),
    {
        self.limit
    }
}

/// A difficulty that statistics leave out.
#[derive(Clone, Debug, Eq, PartialEq)]
pub enum ReplayCacheStatsDifficultyExclusion {
    Casual,
    Normal,
    Hard,
    Brutal,
    BrutalPlus1,
    BrutalPlus2,
    BrutalPlus3,
    BrutalPlus4,
    BrutalPlus5,
    BrutalPlus6,
    Other(String),
}

/// Whether `t` is one of the labels that name a known difficulty exclusion.
pub open spec fn is_known_exclusion_label(t: Seq<char>) -> bool {
    ||| t == "Casual"@
    ||| t == "Normal"@
    ||| t == "Hard"@
    ||| t == "Brutal"@
    ||| t == "1"@
    ||| t == "BrutalPlus1"@
    ||| t == "2"@
    ||| t == "BrutalPlus2"@
    ||| t == "3"@
    ||| t == "BrutalPlus3"@
    ||| t == "4"@
    ||| t == "BrutalPlus4"@
    ||| t == "5"@
    ||| t == "BrutalPlus5"@
    ||| t == "6"@
    ||| t == "BrutalPlus6"@
}

/// Whether `e` is what the (already trimmed) query text `t` names.
pub open spec fn exclusion_parses_as(t: Seq<char>, e: ReplayCacheStatsDifficultyExclusion) -> bool {
    match e {
        ReplayCacheStatsDifficultyExclusion::Casual => t == "Casual"@,
        ReplayCacheStatsDifficultyExclusion::Normal => t == "Normal"@,
        ReplayCacheStatsDifficultyExclusion::Hard => t == "Hard"@,
        ReplayCacheStatsDifficultyExclusion::Brutal => t == "Brutal"@,
        ReplayCacheStatsDifficultyExclusion::BrutalPlus1 => t == "1"@ || t == "BrutalPlus1"@,
        ReplayCacheStatsDifficultyExclusion::BrutalPlus2 => t == "2"@ || t == "BrutalPlus2"@,
        ReplayCacheStatsDifficultyExclusion::BrutalPlus3 => t == "3"@ || t == "BrutalPlus3"@,
        ReplayCacheStatsDifficultyExclusion::BrutalPlus4 => t == "4"@ || t == "BrutalPlus4"@,
        ReplayCacheStatsDifficultyExclusion::BrutalPlus5 => t == "5"@ || t == "BrutalPlus5"@,
        ReplayCacheStatsDifficultyExclusion::BrutalPlus6 => t == "6"@ || t == "BrutalPlus6"@,
        ReplayCacheStatsDifficultyExclusion::Other(s) => s@ == t && !is_known_exclusion_label(t)
            && t.len() > 0,
    }
}

proof fn reveal_exclusion_labels() {
    reveal_strlit("Casual");
    reveal_strlit("Normal");
    reveal_strlit("Hard");
    reveal_strlit("Brutal");
    reveal_strlit("1");
    reveal_strlit("2");
    reveal_strlit("3");
    reveal_strlit("4");
    reveal_strlit("5");
    reveal_strlit("6");
    reveal_strlit("BrutalPlus1");
    reveal_strlit("BrutalPlus2");
    reveal_strlit("BrutalPlus3");
    reveal_strlit("BrutalPlus4");
    reveal_strlit("BrutalPlus5");
    reveal_strlit("BrutalPlus6");
}

} // verus!

verus! {

impl ReplayCacheStatsDifficultyExclusion {
    /// Reads a query value: known labels (and the digits 1-6 for Brutal+ levels), nothing
    /// for an empty value, and any other text kept as it is; surrounding whitespace is ignored.
    pub fn from_query_value(value: &str) -> (r: Option<Self>)
        ensures
            r is None <==> trim_seq(value@).len() == 0,
            r matches Some(e) ==> exclusion_parses_as(trim_seq(value@), e),
    {
        proof {
            reveal_exclusion_labels();
        }
        let t = trimmed_chars(value);
        if t.len() == 0 {
            return None;
        }
        if chars_eq_str(&t, "Casual") {
            Some(Self::Casual)
        } else if chars_eq_str(&t, "Normal") {
            Some(Self::Normal)
        } else if chars_eq_str(&t, "Hard") {
            Some(Self::Hard)
        } else if chars_eq_str(&t, "Brutal") {
            Some(Self::Brutal)
        } else if chars_eq_str(&t, "1") || chars_eq_str(&t, "BrutalPlus1") {
            Some(Self::BrutalPlus1)
        } else if chars_eq_str(&t, "2") || chars_eq_str(&t, "BrutalPlus2") {
            Some(Self::BrutalPlus2)
        } else if chars_eq_str(&t, "3") || chars_eq_str(&t, "BrutalPlus3") {
            Some(Self::BrutalPlus3)
        } else if chars_eq_str(&t, "4") || chars_eq_str(&t, "BrutalPlus4") {
            Some(Self::BrutalPlus4)
        } else if chars_eq_str(&t, "5") || chars_eq_str(&t, "BrutalPlus5") {
            Some(Self::BrutalPlus5)
        } else if chars_eq_str(&t, "6") || chars_eq_str(&t, "BrutalPlus6") {
            Some(Self::BrutalPlus6)
        } else {
            Some(Self::Other(crate::text::string_from_chars(&t)))
        }
    }

    /// The Brutal+ level (1 to 6) this exclusion names, if any.
    pub fn brutal_plus_level(&self) -> (r: Option<i64>)
        ensures
            r == match self {
                Self::BrutalPlus1 => Some(1i64),
                Self::BrutalPlus2 => Some(2i64),
                Self::BrutalPlus3 => Some(3i64),
                Self::BrutalPlus4 => Some(4i64),
                Self::BrutalPlus5 => Some(5i64),
                Self::BrutalPlus6 => Some(6i64),
                _ => None,
            },
    {
        match self {
            Self::BrutalPlus1 => Some(1),
            Self::BrutalPlus2 => Some(2),
            Self::BrutalPlus3 => Some(3),
            Self::BrutalPlus4 => Some(4),
            Self::BrutalPlus5 => Some(5),
            Self::BrutalPlus6 => Some(6),
            _ => None,
        }
    }

    /// The difficulty text this exclusion names, for every exclusion but the Brutal+ levels.
    pub fn difficulty_label(&self) -> (r: Option<&str>)
        ensures
            match self {
                Self::Casual => r matches Some(s) && s@ == "Casual"@,
                Self::Normal => r matches Some(s) && s@ == "Normal"@,
                Self::Hard => r matches Some(s) && s@ == "Hard"@,
                Self::Brutal => r matches Some(s) && s@ == "Brutal"@,
                Self::Other(v) => r matches Some(s) && s@ == v@,
                _ => r is None,
            },
    {
        match self {
            Self::Casual => Some("Casual"),
            Self::Normal => Some("Normal"),
            Self::Hard => Some("Hard"),
            Self::Brutal => Some("Brutal"),
            Self::Other(value) => Some(value.as_str()),
            Self::BrutalPlus1 | Self::BrutalPlus2 | Self::BrutalPlus3 | Self::BrutalPlus4
            | Self::BrutalPlus5 | Self::BrutalPlus6 => None,
        }
    }

    /// Whether this is the plain Brutal label.
    pub fn is_brutal_label(&self) -> (r: bool)
        ensures
            r == (self is Brutal),
    {
        match self {
            Self::Brutal => true,
            _ => false,
        }
    }
}

} // verus!

verus! {

/// The filters of a statistics query, as plain values.
pub struct StatsQueryView {
    pub scope: ReplayCacheReadScope,
    pub limit: usize,
    pub include_mutations: bool,
    pub include_normal_games: bool,
    pub include_wins: bool,
    pub include_losses: bool,
    pub min_length_seconds: u64,
    pub max_length_seconds: u64,
    pub min_date_seconds: Option<u64>,
    pub max_date_seconds: Option<u64>,
    pub player_filter: Seq<char>,
    pub difficulty_exclusions: Seq<ReplayCacheStatsDifficultyExclusion>,
    pub region_exclusions: Seq<String>,
    pub current_replay_files: Seq<String>,
    pub restrict_to_current_replay_files: bool,
    pub include_sub_15: bool,
    pub include_over_15: bool,
    pub include_ally_sub_15: bool,
    pub include_ally_over_15: bool,
    pub include_main_normal_mastery: bool,
    pub include_main_abnormal_mastery: bool,
    pub include_ally_normal_mastery: bool,
    pub include_ally_abnormal_mastery: bool,
    pub include_both_main: bool,
    pub main_handle_keys: Seq<String>,
}

/// The filters of replay statistics.
#[derive(Clone, Debug)]
pub struct ReplayCacheStatsQuery {
    scope: ReplayCacheReadScope,
    limit: usize,
    include_mutations: bool,
    include_normal_games: bool,
    include_wins: bool,
    include_losses: bool,
    min_length_seconds: u64,
    max_length_seconds: u64,
    min_date_seconds: Option<u64>,
    max_date_seconds: Option<u64>,
    player_filter: String,
    difficulty_exclusions: Vec<ReplayCacheStatsDifficultyExclusion>,
    region_exclusions: Vec<String>,
    current_replay_files: Vec<String>,
    restrict_to_current_replay_files: bool,
    include_sub_15: bool,
    include_over_15: bool,
    include_ally_sub_15: bool,
    include_ally_over_15: bool,
    include_main_normal_mastery: bool,
    include_main_abnormal_mastery: bool,
    include_ally_normal_mastery: bool,
    include_ally_abnormal_mastery: bool,
    include_both_main: bool,
    main_handle_keys: Vec<String>,
}

impl View for ReplayCacheStatsQuery {
    type V = StatsQueryView;

    closed spec fn view(&self) -> StatsQueryView {
        StatsQueryView {
            scope: self.scope,
            limit: self.limit,
            include_mutations: self.include_mutations,
            include_normal_games: self.include_normal_games,
            include_wins: self.include_wins,
            include_losses: self.include_losses,
            min_length_seconds: self.min_length_seconds,
            max_length_seconds: self.max_length_seconds,
            min_date_seconds: self.min_date_seconds,
            max_date_seconds: self.max_date_seconds,
            player_filter: self.player_filter@,
            difficulty_exclusions: self.difficulty_exclusions@,
            region_exclusions: self.region_exclusions@,
            current_replay_files: self.current_replay_files@,
            restrict_to_current_replay_files: self.restrict_to_current_replay_files,
            include_sub_15: self.include_sub_15,
            include_over_15: self.include_over_15,
            include_ally_sub_15: self.include_ally_sub_15,
            include_ally_over_15: self.include_ally_over_15,
            include_main_normal_mastery: self.include_main_normal_mastery,
            include_main_abnormal_mastery: self.include_main_abnormal_mastery,
            include_ally_normal_mastery: self.include_ally_normal_mastery,
            include_ally_abnormal_mastery: self.include_ally_abnormal_mastery,
            include_both_main: self.include_both_main,
            main_handle_keys: self.main_handle_keys@,
        }
    }
}

/// The query that includes everything, in the given scope and limit.
pub open spec fn default_stats_query_view(scope: ReplayCacheReadScope, limit: usize) -> StatsQueryView {
    StatsQueryView {
        scope,
        limit,
        include_mutations: true,
        include_normal_games: true,
        include_wins: true,
        include_losses: true,
        min_length_seconds: 0,
        max_length_seconds: 0,
        min_date_seconds: None,
        max_date_seconds: None,
        player_filter: Seq::empty(),
        difficulty_exclusions: Seq::empty(),
        region_exclusions: Seq::empty(),
        current_replay_files: Seq::empty(),
        restrict_to_current_replay_files: false,
        include_sub_15: true,
        include_over_15: true,
        include_ally_sub_15: true,
        include_ally_over_15: true,
        include_main_normal_mastery: true,
        include_main_abnormal_mastery: true,
        include_ally_normal_mastery: true,
        include_ally_abnormal_mastery: true,
        include_both_main: true,
        main_handle_keys: Seq::empty(),
    }
}

impl ReplayCacheStatsQuery {
    pub fn new(scope: ReplayCacheReadScope, limit: usize) -> (r: Self)
        ensures
            r@ == default_stats_query_view(scope, limit),
    {
        Self {
            scope,
            limit,
            include_mutations: true,
            include_normal_games: true,
            include_wins: true,
            include_losses: true,
            min_length_seconds: 0,
            max_length_seconds: 0,
            min_date_seconds: None,
            max_date_seconds: None,
            player_filter: String::new(),
            difficulty_exclusions: Vec::new(),
            region_exclusions: Vec::new(),
            current_replay_files: Vec::new(),
            restrict_to_current_replay_files: false,
            include_sub_15: true,
            include_over_15: true,
            include_ally_sub_15: true,
            include_ally_over_15: true,
            include_main_normal_mastery: true,
            include_main_abnormal_mastery: true,
            include_ally_normal_mastery: true,
            include_ally_abnormal_mastery: true,
            include_both_main: true,
            main_handle_keys: Vec::new(),
        }
    }

    pub fn with_scope(self, scope: ReplayCacheReadScope) -> (r: Self)
        ensures
            r@ == (StatsQueryView { scope, ..self@ }),
    {
        let mut q = self;
        q.scope = scope;
        q
    }

    pub fn with_limit(self, limit: usize) -> (r: Self)
        ensures
            r@ == (StatsQueryView { limit, ..self@ }),
    {
        let mut q = self;
        q.limit = limit;
        q
    }

    pub fn with_mutation_filters(self, include_mutations: bool, include_normal_games: bool) -> (r: Self)
        ensures
            r@ == (StatsQueryView { include_mutations, include_normal_games, ..self@ }),
    {
        let mut q = self;
        q.include_mutations = include_mutations;
        q.include_normal_games = include_normal_games;
        q
    }

    pub fn with_result_filters(self, include_wins: bool, include_losses: bool) -> (r: Self)
        ensures
            r@ == (StatsQueryView { include_wins, include_losses, ..self@ }),
    {
        let mut q = self;
        q.include_wins = include_wins;
        q.include_losses = include_losses;
        q
    }

    pub fn with_length_seconds(self, min_length_seconds: u64, max_length_seconds: u64) -> (r: Self)
        ensures
            r@ == (StatsQueryView { min_length_seconds, max_length_seconds, ..self@ }),
    {
        let mut q = self;
        q.min_length_seconds = min_length_seconds;
        q.max_length_seconds = max_length_seconds;
        q
    }

    pub fn with_date_seconds(self, min_date_seconds: Option<u64>, max_date_seconds: Option<u64>) -> (r: Self)
        ensures
            r@ == (StatsQueryView { min_date_seconds, max_date_seconds, ..self@ }),
    {
        let mut q = self;
        q.min_date_seconds = min_date_seconds;
        q.max_date_seconds = max_date_seconds;
        q
    }

    pub fn with_player_filter(self, player_filter: String) -> (r: Self)
        ensures
            r@ == (StatsQueryView { player_filter: player_filter@, ..self@ }),
    {
        let mut q = self;
        q.player_filter = player_filter;
        q
    }

    pub fn with_difficulty_exclusions(self, difficulty_exclusions: Vec<ReplayCacheStatsDifficultyExclusion>) -> (r: Self)
        ensures
            r@ == (StatsQueryView { difficulty_exclusions: difficulty_exclusions@, ..self@ }),
    {
        let mut q = self;
        q.difficulty_exclusions = difficulty_exclusions;
        q
    }

    pub fn with_region_exclusions(self, region_exclusions: Vec<String>) -> (r: Self)
        ensures
            r@ == (StatsQueryView { region_exclusions: region_exclusions@, ..self@ }),
    {
        let mut q = self;
        q.region_exclusions = region_exclusions;
        q
    }

    /// Restricts the statistics to the given replay files (none at all when the list is empty).
    pub fn with_current_replay_files(self, current_replay_files: Vec<String>) -> (r: Self)
        ensures
            r@ == (StatsQueryView {
                current_replay_files: current_replay_files@,
                restrict_to_current_replay_files: true,
                ..self@
            }),
    {
        let mut q = self;
        q.current_replay_files = current_replay_files;
        q.restrict_to_current_replay_files = true;
        q
    }

    pub fn with_commander_level_filters(
        self,
        include_sub_15: bool,
        include_over_15: bool,
        include_ally_sub_15: bool,
        include_ally_over_15: bool,
    ) -> (r: Self)
        ensures
            r@ == (StatsQueryView {
                include_sub_15,
                include_over_15,
                include_ally_sub_15,
                include_ally_over_15,
                ..self@
            }),
    {
        let mut q = self;
        q.include_sub_15 = include_sub_15;
        q.include_over_15 = include_over_15;
        q.include_ally_sub_15 = include_ally_sub_15;
        q.include_ally_over_15 = include_ally_over_15;
        q
    }

    pub fn with_mastery_filters(
        self,
        include_main_normal_mastery: bool,
        include_main_abnormal_mastery: bool,
        include_ally_normal_mastery: bool,
        include_ally_abnormal_mastery: bool,
    ) -> (r: Self)
        ensures
            r@ == (StatsQueryView {
                include_main_normal_mastery,
                include_main_abnormal_mastery,
                include_ally_normal_mastery,
                include_ally_abnormal_mastery,
                ..self@
            }),
    {
        let mut q = self;
        q.include_main_normal_mastery = include_main_normal_mastery;
        q.include_main_abnormal_mastery = include_main_abnormal_mastery;
        q.include_ally_normal_mastery = include_ally_normal_mastery;
        q.include_ally_abnormal_mastery = include_ally_abnormal_mastery;
        q
    }

    pub fn with_main_identity_filters(self, include_both_main: bool, main_handle_keys: Vec<String>) -> (r: Self)
        ensures
            r@ == (StatsQueryView { include_both_main, main_handle_keys: main_handle_keys@, ..self@ }),
    {
        let mut q = self;
        q.include_both_main = include_both_main;
        q.main_handle_keys = main_handle_keys;
        q
    }

    pub fn scope(&self) -> (r: ReplayCacheReadScope)
        ensures
            r == self@.scope,
    {
        self.scope
    }

    pub fn limit(&self) -> (r: usize)
        ensures
            r == self@.limit,
    {
        self.limit
    }

    pub fn include_mutations(&self) -> (r: bool)
        ensures
            r == self@.include_mutations,
    {
        self.include_mutations
    }

    pub fn include_normal_games(&self) -> (r: bool)
        ensures
            r == self@.include_normal_games,
    {
        self.include_normal_games
    }

    pub fn include_wins(&self) -> (r: bool)
        ensures
            r == self@.include_wins,
    {
        self.include_wins
    }

    pub fn include_losses(&self) -> (r: bool)
        ensures
            r == self@.include_losses,
    {
        self.include_losses
    }

    pub fn min_length_seconds(&self) -> (r: u64)
        ensures
            r == self@.min_length_seconds,
    {
        self.min_length_seconds
    }

    pub fn max_length_seconds(&self) -> (r: u64)
        ensures
            r == self@.max_length_seconds,
    {
        self.max_length_seconds
    }

    pub fn min_date_seconds(&self) -> (r: Option<u64>)
        ensures
            r == self@.min_date_seconds,
    {
        self.min_date_seconds
    }

    pub fn max_date_seconds(&self) -> (r: Option<u64>)
        ensures
            r == self@.max_date_seconds,
    {
        self.max_date_seconds
    }

    pub fn player_filter(&self) -> (r: &str)
        ensures
            r@ == self@.player_filter,
    {
        self.player_filter.as_str()
    }

    pub fn difficulty_exclusions(&self) -> (r: &[ReplayCacheStatsDifficultyExclusion])
        ensures
            r@ == self@.difficulty_exclusions,
    {
        self.difficulty_exclusions.as_slice()
    }

    pub fn region_exclusions(&self) -> (r: &[String])
        ensures
            r@ == self@.region_exclusions,
    {
        self.region_exclusions.as_slice()
    }

    pub fn current_replay_files(&self) -> (r: &[String])
        ensures
            r@ == self@.current_replay_files,
    {
        self.current_replay_files.as_slice()
    }

    pub fn restrict_to_current_replay_files(&self) -> (r: bool)
        ensures
            r == self@.restrict_to_current_replay_files,
    {
        self.restrict_to_current_replay_files
    }

    pub fn include_sub_15(&self) -> (r: bool)
        ensures
            r == self@.include_sub_15,
    {
        self.include_sub_15
    }

    pub fn include_over_15(&self) -> (r: bool)
        ensures
            r == self@.include_over_15,
    {
        self.include_over_15
    }

    pub fn include_ally_sub_15(&self) -> (r: bool)
        ensures
            r == self@.include_ally_sub_15,
    {
        self.include_ally_sub_15
    }

    pub fn include_ally_over_15(&self) -> (r: bool)
        ensures
            r == self@.include_ally_over_15,
    {
        self.include_ally_over_15
    }

    pub fn include_main_normal_mastery(&self) -> (r: bool)
        ensures
            r == self@.include_main_normal_mastery,
    {
        self.include_main_normal_mastery
    }

    pub fn include_main_abnormal_mastery(&self) -> (r: bool)
        ensures
            r == self@.include_main_abnormal_mastery,
    {
        self.include_main_abnormal_mastery
    }

    pub fn include_ally_normal_mastery(&self) -> (r: bool)
        ensures
            r == self@.include_ally_normal_mastery,
    {
        self.include_ally_normal_mastery
    }

    pub fn include_ally_abnormal_mastery(&self) -> (r: bool)
        ensures
            r == self@.include_ally_abnormal_mastery,
    {
        self.include_ally_abnormal_mastery
    }

    pub fn include_both_main(&self) -> (r: bool)
        ensures
            r == self@.include_both_main,
    {
        self.include_both_main
    }

    pub fn main_handle_keys(&self) -> (r: &[String])
        ensures
            r@ == self@.main_handle_keys,
    {
        self.main_handle_keys.as_slice()
    }
}

} // verus!

verus! {

/// Sort direction of a page query.
#[derive(Clone, Copy, Debug, Eq, PartialEq, Structural)]
pub enum ReplayCacheSortDirection {
    Asc,
    Desc,
}

proof fn reveal_direction_labels() {
    reveal_strlit("asc");
    reveal_strlit("desc");
}

impl ReplayCacheSortDirection {
    /// `asc` or `desc`, ignoring ASCII case and surrounding whitespace; `default` otherwise.
    pub fn from_query_value(value: Option<&str>, default: Self) -> (r: Self)
        ensures
            r == match value {
                Some(v) => if lower_seq(trim_seq(v@)) == "asc"@ {
                    ReplayCacheSortDirection::Asc
                } else if lower_seq(trim_seq(v@)) == "desc"@ {
                    ReplayCacheSortDirection::Desc
                } else {
                    default
                },
                None => default,
            },
    {
        proof {
            reveal_direction_labels();
        }
        match value {
            Some(v) => {
                let t = trimmed_chars(v);
                let l = lower_chars(&t);
                if chars_eq_str(&l, "asc") {
                    Self::Asc
                } else if chars_eq_str(&l, "desc") {
                    Self::Desc
                } else {
                    default
                }
            },
            None => default,
        }
    }

    pub fn sql_keyword(self) -> (r: &'static str)
        ensures
            r@ == match self {
                ReplayCacheSortDirection::Asc => "ASC"@,
                ReplayCacheSortDirection::Desc => "DESC"@,
            },
    {
        match self {
            Self::Asc => "ASC",
            Self::Desc => "DESC",
        }
    }
}

/// One page of rows: its size (at least 1) and the number of rows before it.
#[derive(Clone, Copy, Debug, Eq, PartialEq, Structural)]
pub struct ReplayCachePage {
    rows_per_page: usize,
    offset: usize,
}

/// `max(a, 1)`.
pub open spec fn at_least_one(a: usize) -> usize {
    if a < 1 {
        1
    } else {
        a
    }
}

impl ReplayCachePage {
    pub closed spec fn rows_view(self) -> usize {
        self.rows_per_page
    }

    pub closed spec fn offset_view(self) -> usize {
        self.offset
    }

    /// Page `page` (1-based; 0 counts as 1) of `rows_per_page` rows (0 counts as 1); the offset
    /// saturates at `usize::MAX`.
    pub fn new(page: usize, rows_per_page: usize) -> (r: Self)
        ensures
            r.rows_view() == at_least_one(rows_per_page),
            r.offset_view() == if (at_least_one(page) - 1) * at_least_one(rows_per_page)
                <= usize::MAX {
                ((at_least_one(page) - 1) * at_least_one(rows_per_page)) as usize
            } else {
                usize::MAX
            },
    {
        let page = if page < 1 {
            1
        } else {
            page
        };
        let rows_per_page = if rows_per_page < 1 {
            1
        } else {
            rows_per_page
        };
        let before = page - 1;
        let offset = match before.checked_mul(rows_per_page) {
            Some(v) => v,
            None => usize::MAX,
        };
        Self { rows_per_page, offset }
    }

    /// A page that starts after `offset` rows.
    pub fn from_offset(offset: usize, rows_per_page: usize) -> (r: Self)
        ensures
            r.rows_view() == at_least_one(rows_per_page),
            r.offset_view() == offset,
    {
        let rows_per_page = if rows_per_page < 1 {
            1
        } else {
            rows_per_page
        };
        Self { rows_per_page, offset }
    }

    pub fn offset(&self) -> (r: usize)
        ensures
            r == self.offset_view(),
    {
        self.offset
    }

    pub fn limit(&self) -> (r: usize)
        ensures
            r == self.rows_view(),
    {
        self.rows_per_page
    }
}

/// The rows of one page and the number of rows over all pages.
#[derive(Clone, Debug)]
pub struct ReplayCachePageResult<T> {
    rows: Vec<T>,
    total_rows: usize,
}

impl<T> ReplayCachePageResult<T> {
    pub closed spec fn rows_view(self) -> Seq<T> {
        self.rows@
    }

    pub closed spec fn total_view(self) -> usize {
        self.total_rows
    }

    pub fn new(rows: Vec<T>, total_rows: usize) -> (r: Self)
        ensures
            r.rows_view() == rows@,
            r.total_view() == total_rows,
    {
        Self { rows, total_rows }
    }

    pub fn into_rows_and_total(self) -> (r: (Vec<T>, usize))
        ensures
            r.0@ == self.rows_view(),
            r.1 == self.total_view(),
    {
        (self.rows, self.total_rows)
    }

    pub fn rows(&self) -> (r: &[T])
        ensures
            r@ == self.rows_view(),
    {
        self.rows.as_slice()
    }

    pub fn total_rows(&self) -> (r: usize)
        ensures
            r == self.total_view(),
    {
        self.total_rows
    }
}

/// Aggregated statistics with the counts they were computed from.
pub struct ReplayCacheStatisticsPayload {
    analysis: serde_json::Value,
    prestige_names: BTreeMap<String, LocalizedLabels>,
    games: u64,
    detailed_parsed_count: u64,
    total_valid_files: u64,
    main_players: Vec<String>,
    main_handles: Vec<String>,
}

impl ReplayCacheStatisticsPayload {
    pub closed spec fn analysis_view(self) -> serde_json::Value {
        self.analysis
    }

    pub closed spec fn prestige_names_view(self) -> BTreeMap<String, LocalizedLabels> {
        self.prestige_names
    }

    pub closed spec fn counts_view(self) -> (u64, u64, u64) {
        (self.games, self.detailed_parsed_count, self.total_valid_files)
    }

    pub closed spec fn main_players_view(self) -> Seq<String> {
        self.main_players@
    }

    pub closed spec fn main_handles_view(self) -> Seq<String> {
        self.main_handles@
    }

    pub fn new(
        analysis: serde_json::Value,
        prestige_names: BTreeMap<String, LocalizedLabels>,
        games: u64,
        detailed_parsed_count: u64,
        total_valid_files: u64,
        main_players: Vec<String>,
        main_handles: Vec<String>,
    ) -> (r: Self)
        ensures
            r.analysis_view() == analysis,
            r.prestige_names_view() == prestige_names,
            r.counts_view() == (games, detailed_parsed_count, total_valid_files),
            r.main_players_view() == main_players@,
            r.main_handles_view() == main_handles@,
    {
        Self {
            analysis,
            prestige_names,
            games,
            detailed_parsed_count,
            total_valid_files,
            main_players,
            main_handles,
        }
    }

    pub fn analysis(&self) -> (r: &serde_json::Value)
        ensures
            *r == self.analysis_view(),
    {
        &self.analysis
    }

    pub fn prestige_names(&self) -> (r: &BTreeMap<String, LocalizedLabels>)
        ensures
            *r == self.prestige_names_view(),
    {
        &self.prestige_names
    }

    pub fn games(&self) -> (r: u64)
        ensures
            r == self.counts_view().0,
    {
        self.games
    }

    pub fn detailed_parsed_count(&self) -> (r: u64)
        ensures
            r == self.counts_view().1,
    {
        self.detailed_parsed_count
    }

    pub fn total_valid_files(&self) -> (r: u64)
        ensures
            r == self.counts_view().2,
    {
        self.total_valid_files
    }

    pub fn main_players(&self) -> (r: &[String])
        ensures
            r@ == self.main_players_view(),
    {
        self.main_players.as_slice()
    }

    pub fn main_handles(&self) -> (r: &[String])
        ensures
            r@ == self.main_handles_view(),
    {
        self.main_handles.as_slice()
    }
}

} // verus!

verus! {

/// Column that sorts the games page.
#[derive(Clone, Copy, Debug, Eq, PartialEq, Structural)]
pub enum ReplayCacheGameSortKey {
    MapName,
    Result,
    PlayerOne,
    PlayerTwo,
    Enemy,
    Length,
    Difficulty,
    Mutators,
    Time,
    Actions,
}

proof fn reveal_game_sort_labels() {
    reveal_strlit("map");
    reveal_strlit("result");
    reveal_strlit("p1");
    reveal_strlit("p2");
    reveal_strlit("enemy");
    reveal_strlit("length");
    reveal_strlit("difficulty");
    reveal_strlit("mutators");
    reveal_strlit("actions");
}

/// The games sort key that a (trimmed) query text names; `Time` for any other text.
pub open spec fn game_sort_key_for(t: Seq<char>) -> ReplayCacheGameSortKey {
    if t == "map"@ {
        ReplayCacheGameSortKey::MapName
    } else if t == "result"@ {
        ReplayCacheGameSortKey::Result
    } else if t == "p1"@ {
        ReplayCacheGameSortKey::PlayerOne
    } else if t == "p2"@ {
        ReplayCacheGameSortKey::PlayerTwo
    } else if t == "enemy"@ {
        ReplayCacheGameSortKey::Enemy
    } else if t == "length"@ {
        ReplayCacheGameSortKey::Length
    } else if t == "difficulty"@ {
        ReplayCacheGameSortKey::Difficulty
    } else if t == "mutators"@ {
        ReplayCacheGameSortKey::Mutators
    } else if t == "actions"@ {
        ReplayCacheGameSortKey::Actions
    } else {
        ReplayCacheGameSortKey::Time
    }
}

impl ReplayCacheGameSortKey {
    pub fn from_query_value(value: Option<&str>) -> (r: Self)
        ensures
            r == match value {
                Some(v) => game_sort_key_for(trim_seq(v@)),
                None => ReplayCacheGameSortKey::Time,
            },
    {
        proof {
            reveal_game_sort_labels();
        }
        match value {
            None => Self::Time,
            Some(v) => {
                let t = trimmed_chars(v);
                if chars_eq_str(&t, "map") {
                    Self::MapName
                } else if chars_eq_str(&t, "result") {
                    Self::Result
                } else if chars_eq_str(&t, "p1") {
                    Self::PlayerOne
                } else if chars_eq_str(&t, "p2") {
                    Self::PlayerTwo
                } else if chars_eq_str(&t, "enemy") {
                    Self::Enemy
                } else if chars_eq_str(&t, "length") {
                    Self::Length
                } else if chars_eq_str(&t, "difficulty") {
                    Self::Difficulty
                } else if chars_eq_str(&t, "mutators") {
                    Self::Mutators
                } else if chars_eq_str(&t, "actions") {
                    Self::Actions
                } else {
                    Self::Time
                }
            },
        }
    }
}

/// A difficulty that the games page can be restricted to.
#[derive(Clone, Copy, Debug, Eq, PartialEq, Structural)]
pub enum ReplayCacheDifficultyFilter {
    Casual,
    Normal,
    Hard,
    Brutal,
    BrutalPlus1,
    BrutalPlus2,
    BrutalPlus3,
    BrutalPlus4,
    BrutalPlus5,
    BrutalPlus6,
}

proof fn reveal_difficulty_filter_labels() {
    reveal_strlit("Casual");
    reveal_strlit("Normal");
    reveal_strlit("Hard");
    reveal_strlit("Brutal");
    reveal_strlit("BrutalPlus1");
    reveal_strlit("BrutalPlus2");
    reveal_strlit("BrutalPlus3");
    reveal_strlit("BrutalPlus4");
    reveal_strlit("BrutalPlus5");
    reveal_strlit("BrutalPlus6");
}

/// The difficulty filter that a (trimmed) query text names.
pub open spec fn difficulty_filter_for(t: Seq<char>) -> Option<ReplayCacheDifficultyFilter> {
    if t == "Casual"@ {
        Some(ReplayCacheDifficultyFilter::Casual)
    } else if t == "Normal"@ {
        Some(ReplayCacheDifficultyFilter::Normal)
    } else if t == "Hard"@ {
        Some(ReplayCacheDifficultyFilter::Hard)
    } else if t == "Brutal"@ {
        Some(ReplayCacheDifficultyFilter::Brutal)
    } else if t == "BrutalPlus1"@ {
        Some(ReplayCacheDifficultyFilter::BrutalPlus1)
    } else if t == "BrutalPlus2"@ {
        Some(ReplayCacheDifficultyFilter::BrutalPlus2)
    } else if t == "BrutalPlus3"@ {
        Some(ReplayCacheDifficultyFilter::BrutalPlus3)
    } else if t == "BrutalPlus4"@ {
        Some(ReplayCacheDifficultyFilter::BrutalPlus4)
    } else if t == "BrutalPlus5"@ {
        Some(ReplayCacheDifficultyFilter::BrutalPlus5)
    } else if t == "BrutalPlus6"@ {
        Some(ReplayCacheDifficultyFilter::BrutalPlus6)
    } else {
        None
    }
}

/// Every difficulty filter, easiest first.
pub open spec fn all_difficulty_filters() -> Seq<ReplayCacheDifficultyFilter> {
    seq![
        ReplayCacheDifficultyFilter::Casual,
        ReplayCacheDifficultyFilter::Normal,
        ReplayCacheDifficultyFilter::Hard,
        ReplayCacheDifficultyFilter::Brutal,
        ReplayCacheDifficultyFilter::BrutalPlus1,
        ReplayCacheDifficultyFilter::BrutalPlus2,
        ReplayCacheDifficultyFilter::BrutalPlus3,
        ReplayCacheDifficultyFilter::BrutalPlus4,
        ReplayCacheDifficultyFilter::BrutalPlus5,
        ReplayCacheDifficultyFilter::BrutalPlus6,
    ]
}

impl ReplayCacheDifficultyFilter {
    pub fn from_query_value(value: &str) -> (r: Option<Self>)
        ensures
            r == difficulty_filter_for(trim_seq(value@)),
    {
        proof {
            reveal_difficulty_filter_labels();
        }
        let t = trimmed_chars(value);
        if chars_eq_str(&t, "Casual") {
            Some(Self::Casual)
        } else if chars_eq_str(&t, "Normal") {
            Some(Self::Normal)
        } else if chars_eq_str(&t, "Hard") {
            Some(Self::Hard)
        } else if chars_eq_str(&t, "Brutal") {
            Some(Self::Brutal)
        } else if chars_eq_str(&t, "BrutalPlus1") {
            Some(Self::BrutalPlus1)
        } else if chars_eq_str(&t, "BrutalPlus2") {
            Some(Self::BrutalPlus2)
        } else if chars_eq_str(&t, "BrutalPlus3") {
            Some(Self::BrutalPlus3)
        } else if chars_eq_str(&t, "BrutalPlus4") {
            Some(Self::BrutalPlus4)
        } else if chars_eq_str(&t, "BrutalPlus5") {
            Some(Self::BrutalPlus5)
        } else if chars_eq_str(&t, "BrutalPlus6") {
            Some(Self::BrutalPlus6)
        } else {
            None
        }
    }

    pub fn all() -> (r: Vec<Self>)
        ensures
            r@ == all_difficulty_filters(),
    {
        let r = vec![
            Self::Casual,
            Self::Normal,
            Self::Hard,
            Self::Brutal,
            Self::BrutalPlus1,
            Self::BrutalPlus2,
            Self::BrutalPlus3,
            Self::BrutalPlus4,
            Self::BrutalPlus5,
            Self::BrutalPlus6,
        ];
        assert(r@ =~= all_difficulty_filters());
        r
    }

    pub fn brutal_plus_level(self) -> (r: Option<i64>)
        ensures
            r == match self {
                ReplayCacheDifficultyFilter::BrutalPlus1 => Some(1i64),
                ReplayCacheDifficultyFilter::BrutalPlus2 => Some(2i64),
                ReplayCacheDifficultyFilter::BrutalPlus3 => Some(3i64),
                ReplayCacheDifficultyFilter::BrutalPlus4 => Some(4i64),
                ReplayCacheDifficultyFilter::BrutalPlus5 => Some(5i64),
                ReplayCacheDifficultyFilter::BrutalPlus6 => Some(6i64),
                _ => None,
            },
    {
        match self {
            Self::BrutalPlus1 => Some(1),
            Self::BrutalPlus2 => Some(2),
            Self::BrutalPlus3 => Some(3),
            Self::BrutalPlus4 => Some(4),
            Self::BrutalPlus5 => Some(5),
            Self::BrutalPlus6 => Some(6),
            _ => None,
        }
    }

    /// Lower-case label of the four regular difficulties.
    pub fn regular_label(self) -> (r: Option<&'static str>)
        ensures
            match self {
                ReplayCacheDifficultyFilter::Casual => r matches Some(s) && s@ == "casual"@,
                ReplayCacheDifficultyFilter::Normal => r matches Some(s) && s@ == "normal"@,
                ReplayCacheDifficultyFilter::Hard => r matches Some(s) && s@ == "hard"@,
                ReplayCacheDifficultyFilter::Brutal => r matches Some(s) && s@ == "brutal"@,
                _ => r is None,
            },
    {
        match self {
            Self::Casual => Some("casual"),
            Self::Normal => Some("normal"),
            Self::Hard => Some("hard"),
            Self::Brutal => Some("brutal"),
            _ => None,
        }
    }
}

/// Copies a list of difficulty filters.
fn copy_difficulty_filters(v: &Vec<ReplayCacheDifficultyFilter>) -> (r: Vec<ReplayCacheDifficultyFilter>)
    ensures
        r@ == v@,
{
    let mut r: Vec<ReplayCacheDifficultyFilter> = Vec::new();
    for i in 0..v.len()
        invariant
            r@ == v@.subrange(0, i as int),
    {
        r.push(v[i]);
        assert(r@ =~= v@.subrange(0, i + 1));
    }
    assert(v@.subrange(0, v@.len() as int) =~= v@);
    r
}

/// A query for one page of the games list.
#[derive(Clone, Debug)]
pub struct ReplayCacheGamesPageQuery {
    page: ReplayCachePage,
    search: String,
    sort_key: ReplayCacheGameSortKey,
    sort_direction: ReplayCacheSortDirection,
    difficulty_filters: Vec<ReplayCacheDifficultyFilter>,
    include_normal_games: bool,
    include_mutation_games: bool,
}

/// The parts of a games page query, as plain values.
pub struct GamesPageQueryView {
    pub page: ReplayCachePage,
    pub search: Seq<char>,
    pub sort_key: ReplayCacheGameSortKey,
    pub sort_direction: ReplayCacheSortDirection,
    pub difficulty_filters: Seq<ReplayCacheDifficultyFilter>,
    pub include_normal_games: bool,
    pub include_mutation_games: bool,
}

impl View for ReplayCacheGamesPageQuery {
    type V = GamesPageQueryView;

    closed spec fn view(&self) -> GamesPageQueryView {
        GamesPageQueryView {
            page: self.page,
            search: self.search@,
            sort_key: self.sort_key,
            sort_direction: self.sort_direction,
            difficulty_filters: self.difficulty_filters@,
            include_normal_games: self.include_normal_games,
            include_mutation_games: self.include_mutation_games,
        }
    }
}

impl ReplayCacheGamesPageQuery {
    pub fn new(
        page: ReplayCachePage,
        search: String,
        sort_key: ReplayCacheGameSortKey,
        sort_direction: ReplayCacheSortDirection,
        difficulty_filters: Vec<ReplayCacheDifficultyFilter>,
        include_normal_games: bool,
        include_mutation_games: bool,
    ) -> (r: Self)
        ensures
            r@ == (GamesPageQueryView {
                page,
                search: search@,
                sort_key,
                sort_direction,
                difficulty_filters: difficulty_filters@,
                include_normal_games,
                include_mutation_games,
            }),
    {
        Self {
            page,
            search,
            sort_key,
            sort_direction,
            difficulty_filters,
            include_normal_games,
            include_mutation_games,
        }
    }

    pub fn page(&self) -> (r: ReplayCachePage)
        ensures
            r == self@.page,
    {
        self.page
    }

    /// The same query for another page.
    pub fn with_page(&self, page: ReplayCachePage) -> (r: Self)
        ensures
            r@ == (GamesPageQueryView { page, ..self@ }),
    {
        Self {
            page,
            search: self.search.clone(),
            sort_key: self.sort_key,
            sort_direction: self.sort_direction,
            difficulty_filters: copy_difficulty_filters(&self.difficulty_filters),
            include_normal_games: self.include_normal_games,
            include_mutation_games: self.include_mutation_games,
        }
    }

    pub fn search(&self) -> (r: &str)
        ensures
            r@ == self@.search,
    {
        self.search.as_str()
    }

    pub fn sort_key(&self) -> (r: ReplayCacheGameSortKey)
        ensures
            r == self@.sort_key,
    {
        self.sort_key
    }

    pub fn sort_direction(&self) -> (r: ReplayCacheSortDirection)
        ensures
            r == self@.sort_direction,
    {
        self.sort_direction
    }

    pub fn difficulty_filters(&self) -> (r: &[ReplayCacheDifficultyFilter])
        ensures
            r@ == self@.difficulty_filters,
    {
        self.difficulty_filters.as_slice()
    }

    pub fn include_normal_games(&self) -> (r: bool)
        ensures
            r == self@.include_normal_games,
    {
        self.include_normal_games
    }

    pub fn include_mutation_games(&self) -> (r: bool)
        ensures
            r == self@.include_mutation_games,
    {
        self.include_mutation_games
    }
}

} // verus!

verus! {

/// Column that sorts the players page.
#[derive(Clone, Copy, Debug, Eq, PartialEq, Structural)]
pub enum ReplayCachePlayerSortKey {
    Handle,
    Player,
    Wins,
    Losses,
    Winrate,
    Apm,
    Commander,
    Frequency,
    Kills,
    LastSeen,
    Note,
}

proof fn reveal_player_sort_labels() {
    reveal_strlit("handle");
    reveal_strlit("player");
    reveal_strlit("wins");
    reveal_strlit("losses");
    reveal_strlit("winrate");
    reveal_strlit("apm");
    reveal_strlit("commander");
    reveal_strlit("frequency");
    reveal_strlit("kills");
    reveal_strlit("note");
}

/// The players sort key that a (trimmed) query text names; `LastSeen` for any other text.
pub open spec fn player_sort_key_for(t: Seq<char>) -> ReplayCachePlayerSortKey {
    if t == "handle"@ {
        ReplayCachePlayerSortKey::Handle
    } else if t == "player"@ {
        ReplayCachePlayerSortKey::Player
    } else if t == "wins"@ {
        ReplayCachePlayerSortKey::Wins
    } else if t == "losses"@ {
        ReplayCachePlayerSortKey::Losses
    } else if t == "winrate"@ {
        ReplayCachePlayerSortKey::Winrate
    } else if t == "apm"@ {
        ReplayCachePlayerSortKey::Apm
    } else if t == "commander"@ {
        ReplayCachePlayerSortKey::Commander
    } else if t == "frequency"@ {
        ReplayCachePlayerSortKey::Frequency
    } else if t == "kills"@ {
        ReplayCachePlayerSortKey::Kills
    } else if t == "note"@ {
        ReplayCachePlayerSortKey::Note
    } else {
        ReplayCachePlayerSortKey::LastSeen
    }
}

impl ReplayCachePlayerSortKey {
    pub fn from_query_value(value: Option<&str>) -> (r: Self)
        ensures
            r == match value {
                Some(v) => player_sort_key_for(trim_seq(v@)),
                None => ReplayCachePlayerSortKey::LastSeen,
            },
    {
        proof {
            reveal_player_sort_labels();
        }
        match value {
            None => Self::LastSeen,
            Some(v) => {
                let t = trimmed_chars(v);
                if chars_eq_str(&t, "handle") {
                    Self::Handle
                } else if chars_eq_str(&t, "player") {
                    Self::Player
                } else if chars_eq_str(&t, "wins") {
                    Self::Wins
                } else if chars_eq_str(&t, "losses") {
                    Self::Losses
                } else if chars_eq_str(&t, "winrate") {
                    Self::Winrate
                } else if chars_eq_str(&t, "apm") {
                    Self::Apm
                } else if chars_eq_str(&t, "commander") {
                    Self::Commander
                } else if chars_eq_str(&t, "frequency") {
                    Self::Frequency
                } else if chars_eq_str(&t, "kills") {
                    Self::Kills
                } else if chars_eq_str(&t, "note") {
                    Self::Note
                } else {
                    Self::LastSeen
                }
            },
        }
    }
}

/// A note kept for one player handle.
#[derive(Clone, Debug)]
pub struct ReplayCachePlayerNote {
    handle: String,
    note: String,
}

impl ReplayCachePlayerNote {
    pub closed spec fn handle_view(self) -> Seq<char> {
        self.handle@
    }

    pub closed spec fn note_view(self) -> Seq<char> {
        self.note@
    }

    pub fn new(handle: String, note: String) -> (r: Self)
        ensures
            r.handle_view() == handle@,
            r.note_view() == note@,
    {
        Self { handle, note }
    }

    pub fn handle(&self) -> (r: &str)
        ensures
            r@ == self.handle_view(),
    {
        self.handle.as_str()
    }

    pub fn note(&self) -> (r: &str)
        ensures
            r@ == self.note_view(),
    {
        self.note.as_str()
    }
}

/// A query for one page of the players list.
#[derive(Clone, Debug)]
pub struct ReplayCachePlayersPageQuery {
    page: ReplayCachePage,
    search: String,
    sort_key: ReplayCachePlayerSortKey,
    sort_direction: ReplayCacheSortDirection,
    notes: Vec<ReplayCachePlayerNote>,
}

/// The parts of a players page query, as plain values.
pub struct PlayersPageQueryView {
    pub page: ReplayCachePage,
    pub search: Seq<char>,
    pub sort_key: ReplayCachePlayerSortKey,
    pub sort_direction: ReplayCacheSortDirection,
    pub notes: Seq<ReplayCachePlayerNote>,
}

impl View for ReplayCachePlayersPageQuery {
    type V = PlayersPageQueryView;

    closed spec fn view(&self) -> PlayersPageQueryView {
        PlayersPageQueryView {
            page: self.page,
            search: self.search@,
            sort_key: self.sort_key,
            sort_direction: self.sort_direction,
            notes: self.notes@,
        }
    }
}

impl ReplayCachePlayersPageQuery {
    pub fn new(
        page: ReplayCachePage,
        search: String,
        sort_key: ReplayCachePlayerSortKey,
        sort_direction: ReplayCacheSortDirection,
        notes: Vec<ReplayCachePlayerNote>,
    ) -> (r: Self)
        ensures
            r@ == (PlayersPageQueryView {
                page,
                search: search@,
                sort_key,
                sort_direction,
                notes: notes@,
            }),
    {
        Self { page, search, sort_key, sort_direction, notes }
    }

    pub fn page(&self) -> (r: ReplayCachePage)
        ensures
            r == self@.page,
    {
        self.page
    }

    pub fn search(&self) -> (r: &str)
        ensures
            r@ == self@.search,
    {
        self.search.as_str()
    }

    pub fn sort_key(&self) -> (r: ReplayCachePlayerSortKey)
        ensures
            r == self@.sort_key,
    {
        self.sort_key
    }

    pub fn sort_direction(&self) -> (r: ReplayCacheSortDirection)
        ensures
            r == self@.sort_direction,
    {
        self.sort_direction
    }

    pub fn notes(&self) -> (r: &[ReplayCachePlayerNote])
        ensures
            r@ == self@.notes,
    {
        self.notes.as_slice()
    }
}

/// Tables that hold rows belonging to one cached replay.
#[derive(Clone, Copy, Debug, Eq, PartialEq, Structural)]
pub enum ReplayCacheTable {
    Weekly,
    Players,
    PlayerUnits,
    StatisticsPlayers,
    StatisticsPlayerUnits,
    PlayerIcons,
    PlayerIconOrders,
    Messages,
    AmonUnits,
    PlayerStatSeries,
}

/// The child tables, in the order in which a replay's rows are deleted.
pub const REPLAY_CACHE_CHILD_TABLES: [ReplayCacheTable; 10] = [
    ReplayCacheTable::Weekly,
    ReplayCacheTable::StatisticsPlayerUnits,
    ReplayCacheTable::StatisticsPlayers,
    ReplayCacheTable::PlayerUnits,
    ReplayCacheTable::PlayerIconOrders,
    ReplayCacheTable::PlayerIcons,
    ReplayCacheTable::Messages,
    ReplayCacheTable::AmonUnits,
    ReplayCacheTable::PlayerStatSeries,
    ReplayCacheTable::Players,
];

/// What follows `replay_cache_` in the name of a child table.
pub open spec fn child_table_name(t: ReplayCacheTable) -> Seq<char> {
    match t {
        ReplayCacheTable::Players => "players"@,
        ReplayCacheTable::Weekly => "weeklies"@,
        ReplayCacheTable::PlayerUnits => "player_units"@,
        ReplayCacheTable::StatisticsPlayers => "stats_players"@,
        ReplayCacheTable::StatisticsPlayerUnits => "stats_player_units"@,
        ReplayCacheTable::PlayerIcons => "player_icons"@,
        ReplayCacheTable::PlayerIconOrders => "player_icon_orders"@,
        ReplayCacheTable::Messages => "messages"@,
        ReplayCacheTable::AmonUnits => "amon_units"@,
        ReplayCacheTable::PlayerStatSeries => "player_stat_series"@,
    }
}

/// Statement that deletes a replay's rows from a child table.
pub open spec fn delete_by_replay_id_spec(t: ReplayCacheTable) -> Seq<char> {
    "DELETE FROM replay_cache_"@ + child_table_name(t) + " WHERE replay_id = ?1"@
}

impl ReplayCacheTable {
    /// Statement that deletes a replay's rows from this table.
    pub fn delete_by_replay_id_sql(self) -> (r: &'static str)
        ensures
            r@ == delete_by_replay_id_spec(self),
    {
        proof {
            reveal_strlit("DELETE FROM replay_cache_");
            reveal_strlit(" WHERE replay_id = ?1");
        }
        match self {
            Self::Players => {
                proof {
                    reveal_strlit("players");
                    reveal_strlit("DELETE FROM replay_cache_players WHERE replay_id = ?1");
                    assert("DELETE FROM replay_cache_players WHERE replay_id = ?1"@ =~= delete_by_replay_id_spec(self));
                }
                "DELETE FROM replay_cache_players WHERE replay_id = ?1"
            },
            Self::Weekly => {
                proof {
                    reveal_strlit("weeklies");
                    reveal_strlit("DELETE FROM replay_cache_weeklies WHERE replay_id = ?1");
                    assert("DELETE FROM replay_cache_weeklies WHERE replay_id = ?1"@ =~= delete_by_replay_id_spec(self));
                }
                "DELETE FROM replay_cache_weeklies WHERE replay_id = ?1"
            },
            Self::PlayerUnits => {
                proof {
                    reveal_strlit("player_units");
                    reveal_strlit("DELETE FROM replay_cache_player_units WHERE replay_id = ?1");
                    assert("DELETE FROM replay_cache_player_units WHERE replay_id = ?1"@ =~= delete_by_replay_id_spec(self));
                }
                "DELETE FROM replay_cache_player_units WHERE replay_id = ?1"
            },
            Self::StatisticsPlayers => {
                proof {
                    reveal_strlit("stats_players");
                    reveal_strlit("DELETE FROM replay_cache_stats_players WHERE replay_id = ?1");
                    assert("DELETE FROM replay_cache_stats_players WHERE replay_id = ?1"@ =~= delete_by_replay_id_spec(self));
                }
                "DELETE FROM replay_cache_stats_players WHERE replay_id = ?1"
            },
            Self::StatisticsPlayerUnits => {
                proof {
                    reveal_strlit("stats_player_units");
                    reveal_strlit("DELETE FROM replay_cache_stats_player_units WHERE replay_id = ?1");
                    assert("DELETE FROM replay_cache_stats_player_units WHERE replay_id = ?1"@ =~= delete_by_replay_id_spec(self));
                }
                "DELETE FROM replay_cache_stats_player_units WHERE replay_id = ?1"
            },
            Self::PlayerIcons => {
                proof {
                    reveal_strlit("player_icons");
                    reveal_strlit("DELETE FROM replay_cache_player_icons WHERE replay_id = ?1");
                    assert("DELETE FROM replay_cache_player_icons WHERE replay_id = ?1"@ =~= delete_by_replay_id_spec(self));
                }
                "DELETE FROM replay_cache_player_icons WHERE replay_id = ?1"
            },
            Self::PlayerIconOrders => {
                proof {
                    reveal_strlit("player_icon_orders");
                    reveal_strlit("DELETE FROM replay_cache_player_icon_orders WHERE replay_id = ?1");
                    assert("DELETE FROM replay_cache_player_icon_orders WHERE replay_id = ?1"@ =~= delete_by_replay_id_spec(self));
                }
                "DELETE FROM replay_cache_player_icon_orders WHERE replay_id = ?1"
            },
            Self::Messages => {
                proof {
                    reveal_strlit("messages");
                    reveal_strlit("DELETE FROM replay_cache_messages WHERE replay_id = ?1");
                    assert("DELETE FROM replay_cache_messages WHERE replay_id = ?1"@ =~= delete_by_replay_id_spec(self));
                }
                "DELETE FROM replay_cache_messages WHERE replay_id = ?1"
            },
            Self::AmonUnits => {
                proof {
                    reveal_strlit("amon_units");
                    reveal_strlit("DELETE FROM replay_cache_amon_units WHERE replay_id = ?1");
                    assert("DELETE FROM replay_cache_amon_units WHERE replay_id = ?1"@ =~= delete_by_replay_id_spec(self));
                }
                "DELETE FROM replay_cache_amon_units WHERE replay_id = ?1"
            },
            Self::PlayerStatSeries => {
                proof {
                    reveal_strlit("player_stat_series");
                    reveal_strlit("DELETE FROM replay_cache_player_stat_series WHERE replay_id = ?1");
                    assert("DELETE FROM replay_cache_player_stat_series WHERE replay_id = ?1"@ =~= delete_by_replay_id_spec(self));
                }
                "DELETE FROM replay_cache_player_stat_series WHERE replay_id = ?1"
            },
        }
    }
}

proof fn lemma_child_table_names_distinct(t: ReplayCacheTable, u: ReplayCacheTable)
    requires
        t != u,
    ensures
        child_table_name(t) != child_table_name(u),
{
    reveal_strlit("players");
    reveal_strlit("weeklies");
    reveal_strlit("player_units");
    reveal_strlit("stats_players");
    reveal_strlit("stats_player_units");
    reveal_strlit("player_icons");
    reveal_strlit("player_icon_orders");
    reveal_strlit("messages");
    reveal_strlit("amon_units");
    reveal_strlit("player_stat_series");
    let a = child_table_name(t);
    let b = child_table_name(u);
    if a.len() == b.len() {
        assert(a[0] != b[0] || a[7] != b[7]);
    }
}

/// Every child-table delete statement starts with `DELETE FROM replay_cache_` and ends
/// with ` WHERE replay_id = ?1`, and two different tables never share a statement.
pub proof fn law_child_table_deletes(t: ReplayCacheTable, u: ReplayCacheTable)
    ensures
        "DELETE FROM replay_cache_"@.is_prefix_of(delete_by_replay_id_spec(t)),
        " WHERE replay_id = ?1"@.is_suffix_of(delete_by_replay_id_spec(t)),
        t != u ==> delete_by_replay_id_spec(t) != delete_by_replay_id_spec(u),
{
    let p = "DELETE FROM replay_cache_"@;
    let q = " WHERE replay_id = ?1"@;
    let st = delete_by_replay_id_spec(t);
    let su = delete_by_replay_id_spec(u);
    assert(st.subrange(0, p.len() as int) =~= p);
    assert(st.subrange(st.len() - q.len(), st.len() as int) =~= q);
    if t != u && st == su {
        lemma_child_table_names_distinct(t, u);
        let nt = child_table_name(t);
        let nu = child_table_name(u);
        assert(nt.len() == nu.len());
        assert(st.subrange(p.len() as int, (p.len() + nt.len()) as int) =~= nt);
        assert(su.subrange(p.len() as int, (p.len() + nu.len()) as int) =~= nu);
    }
}

/// The columns of a cached replay entry, in select order.
pub const REPLAY_CACHE_ENTRY_RECORD_COLUMNS: &'static str = "
    id,
    hash,
    file,
    file_name,
    date_text,
    date_seconds,
    detailed_analysis,
    result,
    map_name,
    difficulty_p1,
    difficulty_p2,
    ext_difficulty,
    brutal_plus,
    extension,
    weekly,
    region,
    length_ingame_seconds,
    length_realtime_kind,
    length_realtime_int,
    length_realtime_float,
    form_length_realtime,
    replay_build,
    protocol_build_kind,
    protocol_build_int,
    protocol_build_text,
    comp,
    enemy_race,
    has_amon_units,
    has_bonus,
    has_player_stats,
    mutator_values,
    bonus_values,
    updated_at_seconds
";

/// The four forms of the entry select: filtered to detailed entries or not, limited or not.
#[derive(Clone, Copy, Debug, Eq, PartialEq, Structural)]
pub enum ReplayCacheEntryRecordQuery {
    All,
    AllLimited,
    DetailedOnly,
    DetailedOnlyLimited,
}

pub open spec fn record_query_for(scope: ReplayCacheReadScope, limit: usize) -> ReplayCacheEntryRecordQuery {
    match scope {
        ReplayCacheReadScope::All => if limit == 0 {
            ReplayCacheEntryRecordQuery::All
        } else {
            ReplayCacheEntryRecordQuery::AllLimited
        },
        ReplayCacheReadScope::DetailedOnly => if limit == 0 {
            ReplayCacheEntryRecordQuery::DetailedOnly
        } else {
            ReplayCacheEntryRecordQuery::DetailedOnlyLimited
        },
    }
}

/// Text that the select places where a filter may stand.
pub open spec fn record_query_filter(q: ReplayCacheEntryRecordQuery) -> Seq<char> {
    match q {
        ReplayCacheEntryRecordQuery::DetailedOnly | ReplayCacheEntryRecordQuery::DetailedOnlyLimited => "WHERE detailed_analysis = 1"@,
        _ => ""@,
    }
}

/// Text that the select places where a limit may stand.
pub open spec fn record_query_limit(q: ReplayCacheEntryRecordQuery) -> Seq<char> {
    match q {
        ReplayCacheEntryRecordQuery::AllLimited | ReplayCacheEntryRecordQuery::DetailedOnlyLimited => "LIMIT ?1"@,
        _ => ""@,
    }
}

/// The select statement of a record query.
pub open spec fn record_query_sql(q: ReplayCacheEntryRecordQuery) -> Seq<char> {
    "\n            SELECT "@ + REPLAY_CACHE_ENTRY_RECORD_COLUMNS@
        + "\n            FROM replay_cache_entries\n            "@ + record_query_filter(q)
        + "\n            ORDER BY date_seconds DESC, date_text DESC, file DESC, hash DESC\n            "@
        + record_query_limit(q) + "\n            "@
}

/// No character of `s` from position `i` on is `a` or `b`.
pub open spec fn lacks_chars_from(s: Seq<char>, a: char, b: char, i: nat) -> bool
    decreases s.len() - i,
{
    if i >= s.len() {
        true
    } else {
        s[i as int] != a && s[i as int] != b && lacks_chars_from(s, a, b, i + 1)
    }
}

proof fn lemma_lacks_chars(s: Seq<char>, a: char, b: char, i: nat)
    requires
        lacks_chars_from(s, a, b, i),
    ensures
        forall|k: int| i <= k < s.len() ==> s[k] != a && s[k] != b,
    decreases s.len() - i,
{
    if i < s.len() {
        lemma_lacks_chars(s, a, b, i + 1);
    }
}

/// A text without the character `c` holds no text that has `c`.
proof fn lemma_missing_char_not_contained(s: Seq<char>, p: Seq<char>, c: char, j: int)
    requires
        forall|k: int| 0 <= k < s.len() ==> s[k] != c,
        0 <= j < p.len(),
        p[j] == c,
    ensures
        !contains_seq(s, p),
{
    if contains_seq(s, p) {
        let i = choose|i: int| occurs_at(s, p, i);
        assert(s.subrange(i, i + p.len())[j] == s[i + j]);
    }
}

#[verifier::rlimit(100)]
#[verifier::spinoff_prover]
proof fn lemma_record_columns_lack_filter_and_marker()
    ensures
        forall|k: int|
            0 <= k < REPLAY_CACHE_ENTRY_RECORD_COLUMNS@.len() ==> REPLAY_CACHE_ENTRY_RECORD_COLUMNS@[k] != 'W'
                && REPLAY_CACHE_ENTRY_RECORD_COLUMNS@[k] != '?',
{
    reveal_strlit("
    id,
    hash,
    file,
    file_name,
    date_text,
    date_seconds,
    detailed_analysis,
    result,
    map_name,
    difficulty_p1,
    difficulty_p2,
    ext_difficulty,
    brutal_plus,
    extension,
    weekly,
    region,
    length_ingame_seconds,
    length_realtime_kind,
    length_realtime_int,
    length_realtime_float,
    form_length_realtime,
    replay_build,
    protocol_build_kind,
    protocol_build_int,
    protocol_build_text,
    comp,
    enemy_race,
    has_amon_units,
    has_bonus,
    has_player_stats,
    mutator_values,
    bonus_values,
    updated_at_seconds
");
    assert(REPLAY_CACHE_ENTRY_RECORD_COLUMNS@ == "
    id,
    hash,
    file,
    file_name,
    date_text,
    date_seconds,
    detailed_analysis,
    result,
    map_name,
    difficulty_p1,
    difficulty_p2,
    ext_difficulty,
    brutal_plus,
    extension,
    weekly,
    region,
    length_ingame_seconds,
    length_realtime_kind,
    length_realtime_int,
    length_realtime_float,
    form_length_realtime,
    replay_build,
    protocol_build_kind,
    protocol_build_int,
    protocol_build_text,
    comp,
    enemy_race,
    has_amon_units,
    has_bonus,
    has_player_stats,
    mutator_values,
    bonus_values,
    updated_at_seconds
"@);
    assert(lacks_chars_from(REPLAY_CACHE_ENTRY_RECORD_COLUMNS@, 'W', '?', 700)) by {
        reveal_with_fuel(lacks_chars_from, 51);
    }
    assert(lacks_chars_from(REPLAY_CACHE_ENTRY_RECORD_COLUMNS@, 'W', '?', 650)) by {
        reveal_with_fuel(lacks_chars_from, 51);
    }
    assert(lacks_chars_from(REPLAY_CACHE_ENTRY_RECORD_COLUMNS@, 'W', '?', 600)) by {
        reveal_with_fuel(lacks_chars_from, 51);
    }
    assert(lacks_chars_from(REPLAY_CACHE_ENTRY_RECORD_COLUMNS@, 'W', '?', 550)) by {
        reveal_with_fuel(lacks_chars_from, 51);
    }
    assert(lacks_chars_from(REPLAY_CACHE_ENTRY_RECORD_COLUMNS@, 'W', '?', 500)) by {
        reveal_with_fuel(lacks_chars_from, 51);
    }
    assert(lacks_chars_from(REPLAY_CACHE_ENTRY_RECORD_COLUMNS@, 'W', '?', 450)) by {
        reveal_with_fuel(lacks_chars_from, 51);
    }
    assert(lacks_chars_from(REPLAY_CACHE_ENTRY_RECORD_COLUMNS@, 'W', '?', 400)) by {
        reveal_with_fuel(lacks_chars_from, 51);
    }
    assert(lacks_chars_from(REPLAY_CACHE_ENTRY_RECORD_COLUMNS@, 'W', '?', 350)) by {
        reveal_with_fuel(lacks_chars_from, 51);
    }
    assert(lacks_chars_from(REPLAY_CACHE_ENTRY_RECORD_COLUMNS@, 'W', '?', 300)) by {
        reveal_with_fuel(lacks_chars_from, 51);
    }
    assert(lacks_chars_from(REPLAY_CACHE_ENTRY_RECORD_COLUMNS@, 'W', '?', 250)) by {
        reveal_with_fuel(lacks_chars_from, 51);
    }
    assert(lacks_chars_from(REPLAY_CACHE_ENTRY_RECORD_COLUMNS@, 'W', '?', 200)) by {
        reveal_with_fuel(lacks_chars_from, 51);
    }
    assert(lacks_chars_from(REPLAY_CACHE_ENTRY_RECORD_COLUMNS@, 'W', '?', 150)) by {
        reveal_with_fuel(lacks_chars_from, 51);
    }
    assert(lacks_chars_from(REPLAY_CACHE_ENTRY_RECORD_COLUMNS@, 'W', '?', 100)) by {
        reveal_with_fuel(lacks_chars_from, 51);
    }
    assert(lacks_chars_from(REPLAY_CACHE_ENTRY_RECORD_COLUMNS@, 'W', '?', 50)) by {
        reveal_with_fuel(lacks_chars_from, 51);
    }
    assert(lacks_chars_from(REPLAY_CACHE_ENTRY_RECORD_COLUMNS@, 'W', '?', 0)) by {
        reveal_with_fuel(lacks_chars_from, 51);
    }
    lemma_lacks_chars(REPLAY_CACHE_ENTRY_RECORD_COLUMNS@, 'W', '?', 0);
}

/// The fixed parts of the record select hold no `W` and no `?`; the limit holds no `W` and
/// the filter no `?`.
proof fn lemma_record_parts_lack_markers()
    ensures
        forall|k: int| 0 <= k < "\n            SELECT "@.len() ==> "\n            SELECT "@[k] != 'W' && "\n            SELECT "@[k] != '?',
        forall|k: int| 0 <= k < "\n            FROM replay_cache_entries\n            "@.len() ==> "\n            FROM replay_cache_entries\n            "@[k] != 'W' && "\n            FROM replay_cache_entries\n            "@[k] != '?',
        forall|k: int| 0 <= k < "\n            ORDER BY date_seconds DESC, date_text DESC, file DESC, hash DESC\n            "@.len() ==> "\n            ORDER BY date_seconds DESC, date_text DESC, file DESC, hash DESC\n            "@[k] != 'W' && "\n            ORDER BY date_seconds DESC, date_text DESC, file DESC, hash DESC\n            "@[k] != '?',
        forall|k: int| 0 <= k < "\n            "@.len() ==> "\n            "@[k] != 'W' && "\n            "@[k] != '?',
        forall|k: int| 0 <= k < "LIMIT ?1"@.len() ==> "LIMIT ?1"@[k] != 'W',
        forall|k: int| 0 <= k < "WHERE detailed_analysis = 1"@.len() ==> "WHERE detailed_analysis = 1"@[k] != '?',
{
    reveal_strlit("\n            SELECT ");
    assert(lacks_chars_from("\n            SELECT "@, 'W', '?', 50)) by {
        reveal_with_fuel(lacks_chars_from, 51);
    }
    assert(lacks_chars_from("\n            SELECT "@, 'W', '?', 0)) by {
        reveal_with_fuel(lacks_chars_from, 51);
    }
    lemma_lacks_chars("\n            SELECT "@, 'W', '?', 0);
    reveal_strlit("\n            FROM replay_cache_entries\n            ");
    assert(lacks_chars_from("\n            FROM replay_cache_entries\n            "@, 'W', '?', 100)) by {
        reveal_with_fuel(lacks_chars_from, 51);
    }
    assert(lacks_chars_from("\n            FROM replay_cache_entries\n            "@, 'W', '?', 50)) by {
        reveal_with_fuel(lacks_chars_from, 51);
    }
    assert(lacks_chars_from("\n            FROM replay_cache_entries\n            "@, 'W', '?', 0)) by {
        reveal_with_fuel(lacks_chars_from, 51);
    }
    lemma_lacks_chars("\n            FROM replay_cache_entries\n            "@, 'W', '?', 0);
    reveal_strlit("\n            ORDER BY date_seconds DESC, date_text DESC, file DESC, hash DESC\n            ");
    assert(lacks_chars_from("\n            ORDER BY date_seconds DESC, date_text DESC, file DESC, hash DESC\n            "@, 'W', '?', 100)) by {
        reveal_with_fuel(lacks_chars_from, 51);
    }
    assert(lacks_chars_from("\n            ORDER BY date_seconds DESC, date_text DESC, file DESC, hash DESC\n            "@, 'W', '?', 50)) by {
        reveal_with_fuel(lacks_chars_from, 51);
    }
    assert(lacks_chars_from("\n            ORDER BY date_seconds DESC, date_text DESC, file DESC, hash DESC\n            "@, 'W', '?', 0)) by {
        reveal_with_fuel(lacks_chars_from, 51);
    }
    lemma_lacks_chars("\n            ORDER BY date_seconds DESC, date_text DESC, file DESC, hash DESC\n            "@, 'W', '?', 0);
    reveal_strlit("\n            ");
    assert(lacks_chars_from("\n            "@, 'W', '?', 50)) by {
        reveal_with_fuel(lacks_chars_from, 51);
    }
    assert(lacks_chars_from("\n            "@, 'W', '?', 0)) by {
        reveal_with_fuel(lacks_chars_from, 51);
    }
    lemma_lacks_chars("\n            "@, 'W', '?', 0);
    reveal_strlit("LIMIT ?1");
    assert(lacks_chars_from("LIMIT ?1"@, 'W', 'W', 50)) by {
        reveal_with_fuel(lacks_chars_from, 51);
    }
    assert(lacks_chars_from("LIMIT ?1"@, 'W', 'W', 0)) by {
        reveal_with_fuel(lacks_chars_from, 51);
    }
    lemma_lacks_chars("LIMIT ?1"@, 'W', 'W', 0);
    reveal_strlit("WHERE detailed_analysis = 1");
    assert(lacks_chars_from("WHERE detailed_analysis = 1"@, '?', '?', 50)) by {
        reveal_with_fuel(lacks_chars_from, 51);
    }
    assert(lacks_chars_from("WHERE detailed_analysis = 1"@, '?', '?', 0)) by {
        reveal_with_fuel(lacks_chars_from, 51);
    }
    lemma_lacks_chars("WHERE detailed_analysis = 1"@, '?', '?', 0);
}

proof fn lemma_concat_lacks(a: Seq<char>, b: Seq<char>, c: char)
    requires
        forall|k: int| 0 <= k < a.len() ==> a[k] != c,
        forall|k: int| 0 <= k < b.len() ==> b[k] != c,
    ensures
        forall|k: int| 0 <= k < (a + b).len() ==> (a + b)[k] != c,
{
    assert forall|k: int| 0 <= k < (a + b).len() implies (a + b)[k] != c by {
        if k < a.len() {
            assert((a + b)[k] == a[k]);
        } else {
            assert((a + b)[k] == b[k - a.len()]);
        }
    }
}

/// The record select holds the detailed-only filter exactly when only detailed replays are
/// asked for, the row limit exactly when the limit is non-zero, and the newest-first order
/// in every form; a filter or limit that is not asked for leaves its place empty.
pub proof fn law_record_query_shape(scope: ReplayCacheReadScope, limit: usize)
    ensures
        ({
            let q = record_query_for(scope, limit);
            &&& (record_query_filter(q) == "WHERE detailed_analysis = 1"@) == (scope == ReplayCacheReadScope::DetailedOnly)
            &&& (record_query_filter(q) == ""@) == (scope == ReplayCacheReadScope::All)
            &&& (record_query_limit(q) == "LIMIT ?1"@) == (limit != 0)
            &&& (record_query_limit(q) == ""@) == (limit == 0)
            &&& contains_seq(record_query_sql(q), "WHERE detailed_analysis = 1"@) == (scope == ReplayCacheReadScope::DetailedOnly)
            &&& contains_seq(record_query_sql(q), "LIMIT ?1"@) == (limit != 0)
            &&& (q == ReplayCacheEntryRecordQuery::AllLimited || q == ReplayCacheEntryRecordQuery::DetailedOnlyLimited)
                == (limit != 0)
            &&& contains_seq(record_query_sql(q), "ORDER BY date_seconds DESC, date_text DESC, file DESC, hash DESC"@)
        }),
{
    reveal_strlit("WHERE detailed_analysis = 1");
    reveal_strlit("LIMIT ?1");
    reveal_strlit("");
    let q = record_query_for(scope, limit);
    let head = "\n            SELECT "@ + REPLAY_CACHE_ENTRY_RECORD_COLUMNS@
        + "\n            FROM replay_cache_entries\n            "@;
    let order = "\n            ORDER BY date_seconds DESC, date_text DESC, file DESC, hash DESC\n            "@;
    let sql = record_query_sql(q);
    let f = record_query_filter(q);
    let l = record_query_limit(q);
    assert(sql =~= head + f + order + l + "\n            "@);
    reveal_strlit("\n            ORDER BY date_seconds DESC, date_text DESC, file DESC, hash DESC\n            ");
    reveal_strlit("ORDER BY date_seconds DESC, date_text DESC, file DESC, hash DESC");
    let ob = "ORDER BY date_seconds DESC, date_text DESC, file DESC, hash DESC"@;
    let i: int = (head.len() + f.len() + 13) as int;
    assert(order.subrange(13, 13 + ob.len() as int) =~= ob);
    assert(sql.subrange(i, i + ob.len() as int) =~= ob);
    assert(occurs_at(sql, ob, i));
    if scope == ReplayCacheReadScope::DetailedOnly {
        assert(sql.subrange(head.len() as int, (head.len() + f.len()) as int) =~= f);
        assert(occurs_at(sql, f, head.len() as int));
    }
    if limit != 0 {
        let j: int = (head.len() + f.len() + order.len()) as int;
        assert(sql.subrange(j, j + l.len() as int) =~= l);
        assert(occurs_at(sql, l, j));
    }
    lemma_record_columns_lack_filter_and_marker();
    lemma_record_parts_lack_markers();
    let l1 = "\n            SELECT "@;
    let l2 = "\n            FROM replay_cache_entries\n            "@;
    let tail = "\n            "@;
    if scope == ReplayCacheReadScope::All {
        lemma_concat_lacks(l1, REPLAY_CACHE_ENTRY_RECORD_COLUMNS@, 'W');
        lemma_concat_lacks(l1 + REPLAY_CACHE_ENTRY_RECORD_COLUMNS@, l2, 'W');
        assert(f =~= Seq::<char>::empty());
        lemma_concat_lacks(head, f, 'W');
        lemma_concat_lacks(head + f, order, 'W');
        lemma_concat_lacks(head + f + order, l, 'W');
        lemma_concat_lacks(head + f + order + l, tail, 'W');
        lemma_missing_char_not_contained(sql, "WHERE detailed_analysis = 1"@, 'W', 0);
    }
    if limit == 0 {
        lemma_concat_lacks(l1, REPLAY_CACHE_ENTRY_RECORD_COLUMNS@, '?');
        lemma_concat_lacks(l1 + REPLAY_CACHE_ENTRY_RECORD_COLUMNS@, l2, '?');
        lemma_concat_lacks(head, f, '?');
        lemma_concat_lacks(head + f, order, '?');
        assert(l =~= Seq::<char>::empty());
        lemma_concat_lacks(head + f + order, l, '?');
        lemma_concat_lacks(head + f + order + l, tail, '?');
        lemma_missing_char_not_contained(sql, "LIMIT ?1"@, '?', 6);
    }
}

impl ReplayCacheEntryRecordQuery {
    pub fn from_entry_query(query: ReplayCacheEntryQuery) -> (r: Self)
        ensures
            r == record_query_for(query.scope_view(), query.limit_view()),
    {
        match query.scope() {
            ReplayCacheReadScope::All => if query.limit() == 0 {
                Self::All
            } else {
                Self::AllLimited
            },
            ReplayCacheReadScope::DetailedOnly => if query.limit() == 0 {
                Self::DetailedOnly
            } else {
                Self::DetailedOnlyLimited
            },
        }
    }

    /// The row limit to bind, saturated at `i64::MAX`, for the limited forms.
    pub fn limit(self, query: ReplayCacheEntryQuery) -> (r: Option<i64>)
        ensures
            r == match self {
                ReplayCacheEntryRecordQuery::All | ReplayCacheEntryRecordQuery::DetailedOnly => None,
                _ => Some(if query.limit_view() <= i64::MAX { query.limit_view() as i64 } else { i64::MAX }),
            },
    {
        match self {
            Self::All | Self::DetailedOnly => None,
            Self::AllLimited | Self::DetailedOnlyLimited => {
                let l = query.limit();
                if (l as u64) <= (i64::MAX as u64) {
                    Some(l as i64)
                } else {
                    Some(i64::MAX)
                }
            },
        }
    }

    pub fn sql(self) -> (r: String)
        ensures
            r@ == record_query_sql(self),
    {
        let filter = match self {
            Self::DetailedOnly | Self::DetailedOnlyLimited => "WHERE detailed_analysis = 1",
            Self::All | Self::AllLimited => "",
        };
        let limit = match self {
            Self::AllLimited | Self::DetailedOnlyLimited => "LIMIT ?1",
            Self::All | Self::DetailedOnly => "",
        };
        let mut s = String::from_str("\n            SELECT ");
        s.append(REPLAY_CACHE_ENTRY_RECORD_COLUMNS);
        s.append("\n            FROM replay_cache_entries\n            ");
        s.append(filter);
        s.append("\n            ORDER BY date_seconds DESC, date_text DESC, file DESC, hash DESC\n            ");
        s.append(limit);
        s.append("\n            ");
        s
    }
}


/// The first row of a page (before saturation).
pub open spec fn page_offset(page: usize, rows_per_page: usize) -> int {
    (at_least_one(page) - 1) * at_least_one(rows_per_page)
}

/// Consecutive pages follow one another: the next page starts a page's rows later.
pub proof fn law_pages_follow_one_another(page: usize, rows_per_page: usize)
    requires
        page >= 1,
        page < usize::MAX,
    ensures
        page_offset((page + 1) as usize, rows_per_page) == page_offset(page, rows_per_page) + at_least_one(rows_per_page),
        page_offset(1, rows_per_page) == 0,
{
    let r = at_least_one(rows_per_page) as int;
    assert(((page + 1) - 1) * r == (page - 1) * r + r) by (nonlinear_arith);
}

} // verus!
