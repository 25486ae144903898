use vstd::prelude::*;

use crate::db_core::{placeholder_list, ReplayCacheSqlBatch};
use crate::query_types::{ReplayCacheReadScope, ReplayCacheStatsDifficultyExclusion, ReplayCacheStatsQuery, StatsQueryView};
use crate::text::{contains_seq, occurs_at, decimal_seq, decimal_string, string_from_chars, to_ascii_uppercase, trim_seq, trimmed_chars, upper_seq};

verus! {

/// Keeps only replays with a detailed analysis.
pub const DETAILED_ONLY_CLAUSE: &'static str = "e.detailed_analysis = 1";

/// Keeps nothing.
pub const NEVER_CLAUSE: &'static str = "0 = 1";

/// Keeps the listed replay files (followed by the placeholders and `)`).
pub const FILE_IN_PREFIX: &'static str = "e.file IN (";

/// Keeps mutation games.
pub const MUTATIONS_ONLY_CLAUSE: &'static str = "e.extension = 1";

/// Keeps normal games.
pub const NORMAL_GAMES_ONLY_CLAUSE: &'static str = "e.extension = 0";

/// Keeps lost games.
pub const LOSSES_ONLY_CLAUSE: &'static str = "LOWER(TRIM(e.result)) IN ('defeat', 'loss', 'lose', '0', 'false')";

/// Keeps won games.
pub const WINS_ONLY_CLAUSE: &'static str = "LOWER(TRIM(e.result)) IN ('victory', 'win', '1', 'true')";

/// Keeps games with a readable result.
pub const ANY_RESULT_CLAUSE: &'static str = "\n                LOWER(TRIM(e.result)) IN (\n                    'victory', 'win', '1', 'true',\n                    'defeat', 'loss', 'lose', '0', 'false'\n                )\n                ";

/// Compares the game length with a lower bound.
pub const AT_LEAST_SUFFIX: &'static str = " >= ?";

/// Compares the game length with an upper bound.
pub const AT_MOST_SUFFIX: &'static str = " <= ?";

/// Keeps games after a date.
pub const DATE_AFTER_CLAUSE: &'static str = "e.date_seconds > ?";

/// Keeps games before a date.
pub const DATE_BEFORE_CLAUSE: &'static str = "e.date_seconds < ?";

/// Keeps games with a player whose name matches a pattern.
pub const PLAYER_LIKE_CLAUSE: &'static str = "\n                e.id IN (\n                    SELECT p.replay_id\n                    FROM replay_cache_players p\n                    WHERE p.player_name LIKE ? ESCAPE '\\' COLLATE NOCASE\n                )\n                ";

/// Leaves out one Brutal+ level.
pub const BRUTAL_PLUS_CLAUSE: &'static str = "e.brutal_plus <> ?";

/// Leaves out plain Brutal games (followed by the difficulty expression).
pub const BRUTAL_LABEL_PREFIX: &'static str = "(e.brutal_plus > 0 OR instr(";

/// Closes the Brutal exclusion.
pub const BRUTAL_LABEL_SUFFIX: &'static str = ", ?) = 0)";

/// Leaves out a difficulty (followed by the difficulty expression).
pub const LABEL_PREFIX: &'static str = "instr(";

/// Closes a difficulty exclusion.
pub const LABEL_SUFFIX: &'static str = ", ?) = 0";

/// Keeps everything.
pub const ALL_CLAUSE: &'static str = "1 = 1";

/// Joins the clauses.
pub const CLAUSE_SEPARATOR: &'static str = " AND ";

/// Keeps games of a known region.
pub const KNOWN_REGION_CLAUSE: &'static str = "\n            UPPER(TRIM(COALESCE(e.region, ''))) IN ('NA', 'EU', 'KR', 'CN', 'PTR')\n            ";

/// Leaves out regions (followed by the placeholders and `)`).
pub const REGION_NOT_IN_PREFIX: &'static str = "UPPER(TRIM(COALESCE(e.region, ''))) NOT IN (";

/// Keeps games with a player at commander level 15 or above.
pub const OVER_15_CLAUSE: &'static str = "\n                EXISTS (\n                    SELECT 1\n                    FROM replay_cache_players p\n                    WHERE p.replay_id = e.id\n                        AND COALESCE(p.commander_level, 0) >= 15\n                )\n                ";

/// Keeps games with a player below commander level 15.
pub const SUB_15_CLAUSE: &'static str = "\n                EXISTS (\n                    SELECT 1\n                    FROM replay_cache_players p\n                    WHERE p.replay_id = e.id\n                        AND COALESCE(p.commander_level, 0) < 15\n                )\n                ";

/// Starts a mastery clause (followed by the mastery sum).
pub const MASTERY_EXISTS_PREFIX: &'static str = "\n                EXISTS (\n                    SELECT 1\n                    FROM replay_cache_players p\n                    WHERE p.replay_id = e.id\n                        AND ";

/// Keeps games with a player above 90 mastery points.
pub const ABNORMAL_MASTERY_SUFFIX: &'static str = " > 90\n                )\n                ";

/// Keeps games with a player at 90 mastery points or fewer.
pub const NORMAL_MASTERY_SUFFIX: &'static str = " <= 90\n                )\n                ";

/// Leaves out games where both players are the user (first placeholder list next).
pub const MULTIBOX_PREFIX: &'static str = "\n            NOT EXISTS (\n                SELECT 1\n                FROM replay_cache_players p1\n                INNER JOIN replay_cache_players p2\n                    ON p2.replay_id = p1.replay_id\n                    AND p2.pid = 2\n                WHERE p1.replay_id = e.id\n                    AND p1.pid = 1\n                    AND LOWER(TRIM(p1.player_handle)) IN (";

/// Second half of the same clause (second placeholder list next).
pub const MULTIBOX_MIDDLE: &'static str = ")\n                    AND LOWER(TRIM(p2.player_handle)) IN (";

/// Closes the same clause.
pub const MULTIBOX_SUFFIX: &'static str = ")\n            )\n            ";

/// The game length in seconds.
pub const LENGTH_EXPRESSION: &'static str = "\n        CASE e.length_realtime_kind\n            WHEN 'float' THEN COALESCE(e.length_realtime_float, 0.0)\n            ELSE COALESCE(e.length_realtime_int, 0)\n        END\n        ";

/// The difficulty of a game.
pub const DIFFICULTY_EXPRESSION: &'static str = "\n        CASE\n            WHEN TRIM(e.ext_difficulty) <> '' THEN e.ext_difficulty\n            WHEN TRIM(e.difficulty_p2) <> '' THEN e.difficulty_p2\n            WHEN TRIM(e.difficulty_p1) <> '' THEN e.difficulty_p1\n            ELSE 'Unknown'\n        END\n        ";

/// A value bound to a placeholder of a statistics filter. `Seconds` is bound as a real number.
#[derive(Clone, Debug, PartialEq, Eq)]
pub enum StatsBindValue {
    Text(String),
    Integer(i64),
    Seconds(u64),
}

/// A bound value as plain values.
pub enum StatsBindView {
    Text(Seq<char>),
    Integer(i64),
    Seconds(u64),
}

pub open spec fn bind_view(b: StatsBindValue) -> StatsBindView {
    match b {
        StatsBindValue::Text(s) => StatsBindView::Text(s@),
        StatsBindValue::Integer(i) => StatsBindView::Integer(i),
        StatsBindValue::Seconds(s) => StatsBindView::Seconds(s),
    }
}

pub open spec fn bind_views(v: Seq<StatsBindValue>) -> Seq<StatsBindView> {
    v.map_values(|b: StatsBindValue| bind_view(b))
}

pub open spec fn texts(v: Seq<String>) -> Seq<Seq<char>> {
    v.map_values(|s: String| s@)
}

/// Filter clauses and the values their placeholders take, in order.
pub struct StatsFilterPart {
    pub clauses: Seq<Seq<char>>,
    pub binds: Seq<StatsBindView>,
}

pub open spec fn no_part() -> StatsFilterPart {
    StatsFilterPart { clauses: Seq::empty(), binds: Seq::empty() }
}

pub open spec fn clause_part(c: Seq<char>) -> StatsFilterPart {
    StatsFilterPart { clauses: seq![c], binds: Seq::empty() }
}

pub open spec fn bound_part(c: Seq<char>, b: StatsBindView) -> StatsFilterPart {
    StatsFilterPart { clauses: seq![c], binds: seq![b] }
}

pub open spec fn then(a: StatsFilterPart, b: StatsFilterPart) -> StatsFilterPart {
    StatsFilterPart { clauses: a.clauses + b.clauses, binds: a.binds + b.binds }
}

/// A clamped conversion of a count to a database integer.
pub open spec fn u64_to_i64_spec(value: u64) -> i64 {
    if value <= i64::MAX {
        value as i64
    } else {
        i64::MAX
    }
}

/// The texts as bound values.
pub open spec fn text_binds(v: Seq<Seq<char>>) -> Seq<StatsBindView> {
    v.map_values(|s: Seq<char>| StatsBindView::Text(s))
}

pub open spec fn scope_part(q: StatsQueryView) -> StatsFilterPart {
    if q.scope == ReplayCacheReadScope::DetailedOnly {
        clause_part(DETAILED_ONLY_CLAUSE@)
    } else {
        no_part()
    }
}

pub open spec fn files_part(q: StatsQueryView) -> StatsFilterPart {
    let n = q.current_replay_files.len();
    if q.restrict_to_current_replay_files && n == 0 {
        clause_part(NEVER_CLAUSE@)
    } else if n > 0 {
        StatsFilterPart {
            clauses: seq![FILE_IN_PREFIX@ + placeholder_list("?"@, n) + ")"@],
            binds: text_binds(texts(q.current_replay_files)),
        }
    } else {
        no_part()
    }
}

pub open spec fn game_type_part(q: StatsQueryView) -> StatsFilterPart {
    if !q.include_normal_games && !q.include_mutations {
        clause_part(NEVER_CLAUSE@)
    } else if !q.include_normal_games {
        clause_part(MUTATIONS_ONLY_CLAUSE@)
    } else if !q.include_mutations {
        clause_part(NORMAL_GAMES_ONLY_CLAUSE@)
    } else {
        no_part()
    }
}

pub open spec fn result_part(q: StatsQueryView) -> StatsFilterPart {
    if !q.include_wins && !q.include_losses {
        clause_part(NEVER_CLAUSE@)
    } else if !q.include_wins {
        clause_part(LOSSES_ONLY_CLAUSE@)
    } else if !q.include_losses {
        clause_part(WINS_ONLY_CLAUSE@)
    } else {
        clause_part(ANY_RESULT_CLAUSE@)
    }
}

pub open spec fn length_part(q: StatsQueryView) -> StatsFilterPart {
    then(
        if q.min_length_seconds > 0 {
            bound_part(LENGTH_EXPRESSION@ + AT_LEAST_SUFFIX@, StatsBindView::Seconds(q.min_length_seconds))
        } else {
            no_part()
        },
        if q.max_length_seconds > 0 {
            bound_part(LENGTH_EXPRESSION@ + AT_MOST_SUFFIX@, StatsBindView::Seconds(q.max_length_seconds))
        } else {
            no_part()
        },
    )
}

pub open spec fn date_part(q: StatsQueryView) -> StatsFilterPart {
    then(
        match q.min_date_seconds {
            Some(d) => bound_part(DATE_AFTER_CLAUSE@, StatsBindView::Integer(u64_to_i64_spec(d))),
            None => no_part(),
        },
        match q.max_date_seconds {
            Some(d) => bound_part(DATE_BEFORE_CLAUSE@, StatsBindView::Integer(u64_to_i64_spec(d))),
            None => no_part(),
        },
    )
}

/// The `LIKE` pattern of a player filter: `*` and `?` become the wildcards `%` and `_`, and
/// `%`, `_` and `\` are escaped with `\`.
pub open spec fn like_escape(s: Seq<char>) -> Seq<char>
    decreases s.len(),
{
    if s.len() == 0 {
        Seq::empty()
    } else {
        let c = s.last();
        like_escape(s.drop_last()) + if c == '*' {
            seq!['%']
        } else if c == '?' {
            seq!['_']
        } else if c == '%' || c == '_' || c == '\\' {
            seq!['\\', c]
        } else {
            seq![c]
        }
    }
}

pub open spec fn is_ascii_seq(s: Seq<char>) -> bool {
    forall|i: int| 0 <= i < s.len() ==> (#[trigger] s[i]) < 128
}

/// The pattern for a player filter: nothing when it is blank or not ASCII.
pub open spec fn player_pattern_spec(filter: Seq<char>) -> Option<Seq<char>> {
    let t = trim_seq(filter);
    if t.len() == 0 || !is_ascii_seq(t) {
        None
    } else {
        Some(like_escape(t))
    }
}

pub open spec fn player_part(q: StatsQueryView) -> StatsFilterPart {
    match player_pattern_spec(q.player_filter) {
        Some(p) => bound_part(PLAYER_LIKE_CLAUSE@, StatsBindView::Text(p)),
        None => no_part(),
    }
}

pub open spec fn level_part(include_sub_15: bool, include_over_15: bool) -> StatsFilterPart {
    if !include_sub_15 && !include_over_15 {
        clause_part(NEVER_CLAUSE@)
    } else if !include_sub_15 {
        clause_part(OVER_15_CLAUSE@)
    } else if !include_over_15 {
        clause_part(SUB_15_CLAUSE@)
    } else {
        no_part()
    }
}

/// One term of the mastery sum: the `index`-th mastery value of `column`, or 0.
pub open spec fn mastery_term(column: Seq<char>, index: nat) -> Seq<char> {
    "COALESCE(json_extract("@ + column + ", '$["@ + decimal_seq(index) + "]'), 0)"@
}

/// `parts` joined with `sep`.
pub open spec fn join_with(parts: Seq<Seq<char>>, sep: Seq<char>) -> Seq<char>
    decreases parts.len(),
{
    if parts.len() == 0 {
        Seq::empty()
    } else if parts.len() == 1 {
        parts[0]
    } else {
        join_with(parts.drop_last(), sep) + sep + parts.last()
    }
}

/// The sum of the six mastery values of `column`.
pub open spec fn mastery_sum_spec(column: Seq<char>) -> Seq<char> {
    join_with(Seq::new(6, |i: int| mastery_term(column, i as nat)), " + "@)
}

pub open spec fn mastery_part(include_normal: bool, include_abnormal: bool) -> StatsFilterPart {
    if !include_normal && !include_abnormal {
        clause_part(NEVER_CLAUSE@)
    } else if !include_normal {
        clause_part(MASTERY_EXISTS_PREFIX@ + mastery_sum_spec("p.mastery_values"@) + ABNORMAL_MASTERY_SUFFIX@)
    } else if !include_abnormal {
        clause_part(MASTERY_EXISTS_PREFIX@ + mastery_sum_spec("p.mastery_values"@) + NORMAL_MASTERY_SUFFIX@)
    } else {
        no_part()
    }
}

pub open spec fn multibox_part(q: StatsQueryView) -> StatsFilterPart {
    let n = q.main_handle_keys.len();
    if q.include_both_main || n == 0 {
        no_part()
    } else {
        StatsFilterPart {
            clauses: seq![
                MULTIBOX_PREFIX@ + placeholder_list("?"@, n) + MULTIBOX_MIDDLE@ + placeholder_list("?"@, n)
                    + MULTIBOX_SUFFIX@,
            ],
            binds: text_binds(texts(q.main_handle_keys)) + text_binds(texts(q.main_handle_keys)),
        }
    }
}

pub open spec fn orientation_part(q: StatsQueryView) -> StatsFilterPart {
    then(
        then(
            then(level_part(q.include_sub_15, q.include_over_15), level_part(q.include_ally_sub_15, q.include_ally_over_15)),
            then(
                mastery_part(q.include_main_normal_mastery, q.include_main_abnormal_mastery),
                mastery_part(q.include_ally_normal_mastery, q.include_ally_abnormal_mastery),
            ),
        ),
        multibox_part(q),
    )
}

/// The clause and value that leave out one difficulty.
pub open spec fn exclusion_part(e: ReplayCacheStatsDifficultyExclusion) -> StatsFilterPart {
    match e {
        ReplayCacheStatsDifficultyExclusion::BrutalPlus1 => bound_part(BRUTAL_PLUS_CLAUSE@, StatsBindView::Integer(1)),
        ReplayCacheStatsDifficultyExclusion::BrutalPlus2 => bound_part(BRUTAL_PLUS_CLAUSE@, StatsBindView::Integer(2)),
        ReplayCacheStatsDifficultyExclusion::BrutalPlus3 => bound_part(BRUTAL_PLUS_CLAUSE@, StatsBindView::Integer(3)),
        ReplayCacheStatsDifficultyExclusion::BrutalPlus4 => bound_part(BRUTAL_PLUS_CLAUSE@, StatsBindView::Integer(4)),
        ReplayCacheStatsDifficultyExclusion::BrutalPlus5 => bound_part(BRUTAL_PLUS_CLAUSE@, StatsBindView::Integer(5)),
        ReplayCacheStatsDifficultyExclusion::BrutalPlus6 => bound_part(BRUTAL_PLUS_CLAUSE@, StatsBindView::Integer(6)),
        ReplayCacheStatsDifficultyExclusion::Brutal => bound_part(
            BRUTAL_LABEL_PREFIX@ + DIFFICULTY_EXPRESSION@ + BRUTAL_LABEL_SUFFIX@,
            StatsBindView::Text("Brutal"@),
        ),
        ReplayCacheStatsDifficultyExclusion::Casual => bound_part(
            LABEL_PREFIX@ + DIFFICULTY_EXPRESSION@ + LABEL_SUFFIX@,
            StatsBindView::Text("Casual"@),
        ),
        ReplayCacheStatsDifficultyExclusion::Normal => bound_part(
            LABEL_PREFIX@ + DIFFICULTY_EXPRESSION@ + LABEL_SUFFIX@,
            StatsBindView::Text("Normal"@),
        ),
        ReplayCacheStatsDifficultyExclusion::Hard => bound_part(
            LABEL_PREFIX@ + DIFFICULTY_EXPRESSION@ + LABEL_SUFFIX@,
            StatsBindView::Text("Hard"@),
        ),
        ReplayCacheStatsDifficultyExclusion::Other(s) => bound_part(
            LABEL_PREFIX@ + DIFFICULTY_EXPRESSION@ + LABEL_SUFFIX@,
            StatsBindView::Text(s@),
        ),
    }
}

/// The exclusions of the first `n` difficulties, in order.
pub open spec fn exclusions_part(es: Seq<ReplayCacheStatsDifficultyExclusion>, n: int) -> StatsFilterPart
    decreases n,
{
    if n <= 0 {
        no_part()
    } else {
        then(exclusions_part(es, n - 1), exclusion_part(es[n - 1]))
    }
}

pub open spec fn region_part(q: StatsQueryView) -> StatsFilterPart {
    let n = q.region_exclusions.len();
    if n == 0 {
        no_part()
    } else {
        StatsFilterPart {
            clauses: seq![KNOWN_REGION_CLAUSE@, REGION_NOT_IN_PREFIX@ + placeholder_list("?"@, n) + ")"@],
            binds: text_binds(texts(q.region_exclusions).map_values(|r: Seq<char>| upper_seq(r))),
        }
    }
}

/// All clauses and values of a statistics filter, in order; the orientation filters (levels,
/// masteries, the user on both sides, regions) only when asked for.
pub open spec fn stats_filter_spec(q: StatsQueryView, include_orientation_filters: bool) -> StatsFilterPart {
    let base = then(
        then(then(then(then(then(scope_part(q), files_part(q)), game_type_part(q)), result_part(q)), length_part(q)), date_part(q)),
        player_part(q),
    );
    let with_orientation = if include_orientation_filters {
        then(base, orientation_part(q))
    } else {
        base
    };
    let with_difficulty = then(with_orientation, exclusions_part(q.difficulty_exclusions, q.difficulty_exclusions.len() as int));
    if include_orientation_filters {
        then(with_difficulty, region_part(q))
    } else {
        with_difficulty
    }
}

/// The `WHERE` text of a filter: its clauses joined with `AND`, or a clause that keeps
/// everything when there are none.
pub open spec fn where_sql_spec(clauses: Seq<Seq<char>>) -> Seq<char> {
    if clauses.len() == 0 {
        ALL_CLAUSE@
    } else {
        join_with(clauses, CLAUSE_SEPARATOR@)
    }
}

/// What has been built so far, taken as a filter part.
pub open spec fn built(clauses: Seq<String>, binds: Seq<StatsBindValue>) -> StatsFilterPart {
    StatsFilterPart { clauses: texts(clauses), binds: bind_views(binds) }
}

fn concat(a: &str, b: &str) -> (r: String)
    ensures
        r@ == a@ + b@,
{
    let mut s = String::from_str(a);
    s.append(b);
    s
}

fn push_clause(clauses: &mut Vec<String>, c: String)
    ensures
        texts(final(clauses)@) == texts(old(clauses)@).push(c@),
{
    clauses.push(c);
    proof {
        assert(texts(clauses@) =~= texts(old(clauses)@).push(c@));
    }
}

fn push_bind(binds: &mut Vec<StatsBindValue>, b: StatsBindValue)
    ensures
        bind_views(final(binds)@) == bind_views(old(binds)@).push(bind_view(b)),
{
    binds.push(b);
    proof {
        assert(bind_views(binds@) =~= bind_views(old(binds)@).push(bind_view(b)));
    }
}

/// Binds each text, as it is or in upper case.
fn push_text_binds(binds: &mut Vec<StatsBindValue>, values: &[String], upper: bool)
    ensures
        bind_views(final(binds)@) == bind_views(old(binds)@) + if upper {
            text_binds(texts(values@).map_values(|r: Seq<char>| upper_seq(r)))
        } else {
            text_binds(texts(values@))
        },
{
    let ghost target = if upper {
        text_binds(texts(values@).map_values(|r: Seq<char>| upper_seq(r)))
    } else {
        text_binds(texts(values@))
    };
    for i in 0..values.len()
        invariant
            target == (if upper {
                text_binds(texts(values@).map_values(|r: Seq<char>| upper_seq(r)))
            } else {
                text_binds(texts(values@))
            }),
            bind_views(binds@) == bind_views(old(binds)@) + target.take(i as int),
    {
        let v = if upper {
            to_ascii_uppercase(values[i].as_str())
        } else {
            values[i].clone()
        };
        push_bind(binds, StatsBindValue::Text(v));
        proof {
            assert(target.take(i + 1) =~= target.take(i as int).push(target[i as int]));
        }
    }
    proof {
        assert(target.take(values@.len() as int) =~= target);
    }
}

/// A clamped conversion of a count to a database integer.
pub fn u64_to_i64(value: u64) -> (r: i64)
    ensures
        r == u64_to_i64_spec(value),
{
    if value <= i64::MAX as u64 {
        value as i64
    } else {
        i64::MAX
    }
}

/// The pattern for a player filter (see [`player_pattern_spec`]).
pub fn stats_player_like_pattern(player_filter: &str) -> (r: Option<String>)
    ensures
        match r {
            Some(p) => player_pattern_spec(player_filter@) == Some(p@),
            None => player_pattern_spec(player_filter@) is None,
        },
{
    let t = trimmed_chars(player_filter);
    if t.len() == 0 {
        return None;
    }
    let mut i: usize = 0;
    while i < t.len()
        invariant
            i <= t@.len(),
            t@ == trim_seq(player_filter@),
            forall|j: int| 0 <= j < i ==> #[trigger] t@[j] < '\u{80}',
        decreases t@.len() - i,
    {
        if t[i] >= '\u{80}' {
            proof {
                assert(!is_ascii_seq(t@)) by {
                    assert(t@[i as int] >= '\u{80}');
                }
            }
            return None;
        }
        i = i + 1;
    }
    let mut out: Vec<char> = Vec::new();
    let mut k: usize = 0;
    while k < t.len()
        invariant
            k <= t@.len(),
            t@ == trim_seq(player_filter@),
            is_ascii_seq(t@),
            out@ == like_escape(t@.take(k as int)),
        decreases t@.len() - k,
    {
        let c = t[k];
        if c == '*' {
            out.push('%');
        } else if c == '?' {
            out.push('_');
        } else if c == '%' || c == '_' || c == '\\' {
            out.push('\\');
            out.push(c);
        } else {
            out.push(c);
        }
        proof {
            assert(t@.take(k + 1).drop_last() =~= t@.take(k as int));
            assert(out@ =~= like_escape(t@.take(k + 1)));
        }
        k = k + 1;
    }
    proof {
        assert(t@.take(t@.len() as int) =~= t@);
    }
    Some(string_from_chars(&out))
}

/// The sum of the six mastery values of `column`, as SQL.
pub fn stats_mastery_sum_expression(column: &str) -> (r: String)
    ensures
        r@ == mastery_sum_spec(column@),
{
    let ghost terms = Seq::new(6, |i: int| mastery_term(column@, i as nat));
    let mut out = String::new();
    let mut i: u64 = 0;
    while i < 6
        invariant
            i <= 6,
            terms == Seq::new(6, |j: int| mastery_term(column@, j as nat)),
            out@ == join_with(terms.take(i as int), " + "@),
        decreases 6 - i,
    {
        if i > 0 {
            out.append(" + ");
        }
        out.append("COALESCE(json_extract(");
        out.append(column);
        out.append(", '$[");
        out.append(decimal_string(i).as_str());
        out.append("]'), 0)");
        proof {
            assert(terms.take(i + 1).drop_last() =~= terms.take(i as int));
            assert(terms.take(i + 1).last() == mastery_term(column@, i as nat));
            if i == 0 {
                assert(terms.take(1).len() == 1);
            }
        }
        i = i + 1;
    }
    proof {
        assert(terms.take(6) =~= terms);
    }
    out
}

fn add_clause(clauses: &mut Vec<String>, binds: &Vec<StatsBindValue>, c: String)
    ensures
        built(final(clauses)@, binds@) == then(built(old(clauses)@, binds@), clause_part(c@)),
{
    push_clause(clauses, c);
    proof {
        assert(bind_views(binds@) =~= bind_views(binds@) + Seq::<StatsBindView>::empty());
        assert(texts(clauses@) =~= texts(old(clauses)@) + seq![c@]);
    }
}

fn add_bound(clauses: &mut Vec<String>, binds: &mut Vec<StatsBindValue>, c: String, b: StatsBindValue)
    ensures
        built(final(clauses)@, final(binds)@) == then(built(old(clauses)@, old(binds)@), bound_part(c@, bind_view(b))),
{
    push_clause(clauses, c);
    push_bind(binds, b);
    proof {
        assert(texts(clauses@) =~= texts(old(clauses)@) + seq![c@]);
        assert(bind_views(binds@) =~= bind_views(old(binds)@) + seq![bind_view(b)]);
    }
}

proof fn lemma_then_none(a: StatsFilterPart)
    ensures
        then(a, no_part()) == a,
{
    assert(then(a, no_part()).clauses =~= a.clauses);
    assert(then(a, no_part()).binds =~= a.binds);
}

proof fn lemma_none_then(a: StatsFilterPart)
    ensures
        then(no_part(), a) == a,
{
    assert(then(no_part(), a).clauses =~= a.clauses);
    assert(then(no_part(), a).binds =~= a.binds);
}

proof fn lemma_then_assoc(a: StatsFilterPart, b: StatsFilterPart, c: StatsFilterPart)
    ensures
        then(then(a, b), c) == then(a, then(b, c)),
{
    assert(then(then(a, b), c).clauses =~= then(a, then(b, c)).clauses);
    assert(then(then(a, b), c).binds =~= then(a, then(b, c)).binds);
}

fn add_scope(q: &ReplayCacheStatsQuery, clauses: &mut Vec<String>, binds: &mut Vec<StatsBindValue>)
    ensures
        built(final(clauses)@, final(binds)@) == then(built(old(clauses)@, old(binds)@), scope_part(q@)),
{
    if q.scope() == ReplayCacheReadScope::DetailedOnly {
        add_clause(clauses, binds, String::from_str(DETAILED_ONLY_CLAUSE));
    } else {
        proof {
            lemma_then_none(built(clauses@, binds@));
        }
    }
}

fn add_files(q: &ReplayCacheStatsQuery, clauses: &mut Vec<String>, binds: &mut Vec<StatsBindValue>)
    ensures
        built(final(clauses)@, final(binds)@) == then(built(old(clauses)@, old(binds)@), files_part(q@)),
{
    let files = q.current_replay_files();
    if q.restrict_to_current_replay_files() && files.len() == 0 {
        add_clause(clauses, binds, String::from_str(NEVER_CLAUSE));
    } else if files.len() > 0 {
        let c = concat(concat(FILE_IN_PREFIX, ReplayCacheSqlBatch::in_placeholders(files.len()).as_str()).as_str(), ")");
        push_clause(clauses, c);
        push_text_binds(binds, files, false);
        proof {
            assert(texts(clauses@) =~= texts(old(clauses)@) + seq![c@]);
        }
    } else {
        proof {
            lemma_then_none(built(clauses@, binds@));
        }
    }
}

fn add_game_type(q: &ReplayCacheStatsQuery, clauses: &mut Vec<String>, binds: &mut Vec<StatsBindValue>)
    ensures
        built(final(clauses)@, final(binds)@) == then(built(old(clauses)@, old(binds)@), game_type_part(q@)),
{
    if !q.include_normal_games() && !q.include_mutations() {
        add_clause(clauses, binds, String::from_str(NEVER_CLAUSE));
    } else if !q.include_normal_games() {
        add_clause(clauses, binds, String::from_str(MUTATIONS_ONLY_CLAUSE));
    } else if !q.include_mutations() {
        add_clause(clauses, binds, String::from_str(NORMAL_GAMES_ONLY_CLAUSE));
    } else {
        proof {
            lemma_then_none(built(clauses@, binds@));
        }
    }
}

fn add_result(q: &ReplayCacheStatsQuery, clauses: &mut Vec<String>, binds: &mut Vec<StatsBindValue>)
    ensures
        built(final(clauses)@, final(binds)@) == then(built(old(clauses)@, old(binds)@), result_part(q@)),
{
    if !q.include_wins() && !q.include_losses() {
        add_clause(clauses, binds, String::from_str(NEVER_CLAUSE));
    } else if !q.include_wins() {
        add_clause(clauses, binds, String::from_str(LOSSES_ONLY_CLAUSE));
    } else if !q.include_losses() {
        add_clause(clauses, binds, String::from_str(WINS_ONLY_CLAUSE));
    } else {
        add_clause(clauses, binds, String::from_str(ANY_RESULT_CLAUSE));
    }
}

fn add_length(q: &ReplayCacheStatsQuery, clauses: &mut Vec<String>, binds: &mut Vec<StatsBindValue>)
    ensures
        built(final(clauses)@, final(binds)@) == then(built(old(clauses)@, old(binds)@), length_part(q@)),
{
    let ghost start = built(clauses@, binds@);
    let min = q.min_length_seconds();
    let max = q.max_length_seconds();
    if min > 0 {
        add_bound(clauses, binds, concat(LENGTH_EXPRESSION, AT_LEAST_SUFFIX), StatsBindValue::Seconds(min));
    } else {
        proof {
            lemma_then_none(start);
        }
    }
    let ghost mid = built(clauses@, binds@);
    if max > 0 {
        add_bound(clauses, binds, concat(LENGTH_EXPRESSION, AT_MOST_SUFFIX), StatsBindValue::Seconds(max));
    } else {
        proof {
            lemma_then_none(mid);
        }
    }
    proof {
        let a = if q@.min_length_seconds > 0 {
            bound_part(LENGTH_EXPRESSION@ + AT_LEAST_SUFFIX@, StatsBindView::Seconds(q@.min_length_seconds))
        } else {
            no_part()
        };
        let b = if q@.max_length_seconds > 0 {
            bound_part(LENGTH_EXPRESSION@ + AT_MOST_SUFFIX@, StatsBindView::Seconds(q@.max_length_seconds))
        } else {
            no_part()
        };
        lemma_then_assoc(start, a, b);
    }
}

fn add_dates(q: &ReplayCacheStatsQuery, clauses: &mut Vec<String>, binds: &mut Vec<StatsBindValue>)
    ensures
        built(final(clauses)@, final(binds)@) == then(built(old(clauses)@, old(binds)@), date_part(q@)),
{
    let ghost start = built(clauses@, binds@);
    match q.min_date_seconds() {
        Some(d) => add_bound(clauses, binds, String::from_str(DATE_AFTER_CLAUSE), StatsBindValue::Integer(u64_to_i64(d))),
        None => {
            proof {
                lemma_then_none(start);
            }
        },
    }
    let ghost mid = built(clauses@, binds@);
    match q.max_date_seconds() {
        Some(d) => add_bound(clauses, binds, String::from_str(DATE_BEFORE_CLAUSE), StatsBindValue::Integer(u64_to_i64(d))),
        None => {
            proof {
                lemma_then_none(mid);
            }
        },
    }
    proof {
        let a = match q@.min_date_seconds {
            Some(d) => bound_part(DATE_AFTER_CLAUSE@, StatsBindView::Integer(u64_to_i64_spec(d))),
            None => no_part(),
        };
        let b = match q@.max_date_seconds {
            Some(d) => bound_part(DATE_BEFORE_CLAUSE@, StatsBindView::Integer(u64_to_i64_spec(d))),
            None => no_part(),
        };
        lemma_then_assoc(start, a, b);
    }
}

fn add_player(q: &ReplayCacheStatsQuery, clauses: &mut Vec<String>, binds: &mut Vec<StatsBindValue>)
    ensures
        built(final(clauses)@, final(binds)@) == then(built(old(clauses)@, old(binds)@), player_part(q@)),
{
    match stats_player_like_pattern(q.player_filter()) {
        Some(p) => add_bound(clauses, binds, String::from_str(PLAYER_LIKE_CLAUSE), StatsBindValue::Text(p)),
        None => {
            proof {
                lemma_then_none(built(clauses@, binds@));
            }
        },
    }
}

fn add_level(include_sub_15: bool, include_over_15: bool, clauses: &mut Vec<String>, binds: &mut Vec<StatsBindValue>)
    ensures
        built(final(clauses)@, final(binds)@) == then(
            built(old(clauses)@, old(binds)@),
            level_part(include_sub_15, include_over_15),
        ),
{
    if !include_sub_15 && !include_over_15 {
        add_clause(clauses, binds, String::from_str(NEVER_CLAUSE));
    } else if !include_sub_15 {
        add_clause(clauses, binds, String::from_str(OVER_15_CLAUSE));
    } else if !include_over_15 {
        add_clause(clauses, binds, String::from_str(SUB_15_CLAUSE));
    } else {
        proof {
            lemma_then_none(built(clauses@, binds@));
        }
    }
}

fn add_mastery(include_normal: bool, include_abnormal: bool, clauses: &mut Vec<String>, binds: &mut Vec<StatsBindValue>)
    ensures
        built(final(clauses)@, final(binds)@) == then(
            built(old(clauses)@, old(binds)@),
            mastery_part(include_normal, include_abnormal),
        ),
{
    proof {
        reveal_strlit("p.mastery_values");
    }
    if !include_normal && !include_abnormal {
        add_clause(clauses, binds, String::from_str(NEVER_CLAUSE));
    } else if !include_normal {
        let sum = stats_mastery_sum_expression("p.mastery_values");
        add_clause(clauses, binds, concat(concat(MASTERY_EXISTS_PREFIX, sum.as_str()).as_str(), ABNORMAL_MASTERY_SUFFIX));
    } else if !include_abnormal {
        let sum = stats_mastery_sum_expression("p.mastery_values");
        add_clause(clauses, binds, concat(concat(MASTERY_EXISTS_PREFIX, sum.as_str()).as_str(), NORMAL_MASTERY_SUFFIX));
    } else {
        proof {
            lemma_then_none(built(clauses@, binds@));
        }
    }
}

fn add_multibox(q: &ReplayCacheStatsQuery, clauses: &mut Vec<String>, binds: &mut Vec<StatsBindValue>)
    ensures
        built(final(clauses)@, final(binds)@) == then(built(old(clauses)@, old(binds)@), multibox_part(q@)),
{
    let keys = q.main_handle_keys();
    if q.include_both_main() || keys.len() == 0 {
        proof {
            lemma_then_none(built(clauses@, binds@));
        }
        return;
    }
    let ph = ReplayCacheSqlBatch::in_placeholders(keys.len());
    let c = concat(
        concat(concat(concat(MULTIBOX_PREFIX, ph.as_str()).as_str(), MULTIBOX_MIDDLE).as_str(), ph.as_str()).as_str(),
        MULTIBOX_SUFFIX,
    );
    push_clause(clauses, c);
    let ghost mid = bind_views(binds@);
    push_text_binds(binds, keys, false);
    push_text_binds(binds, keys, false);
    proof {
        assert(texts(clauses@) =~= texts(old(clauses)@) + seq![c@]);
        assert(bind_views(binds@) =~= bind_views(old(binds)@) + (text_binds(texts(keys@)) + text_binds(texts(keys@))));
    }
}

fn add_levels(q: &ReplayCacheStatsQuery, clauses: &mut Vec<String>, binds: &mut Vec<StatsBindValue>)
    ensures
        built(final(clauses)@, final(binds)@) == then(
            built(old(clauses)@, old(binds)@),
            then(level_part(q@.include_sub_15, q@.include_over_15), level_part(q@.include_ally_sub_15, q@.include_ally_over_15)),
        ),
{
    let ghost s0 = built(clauses@, binds@);
    add_level(q.include_sub_15(), q.include_over_15(), clauses, binds);
    add_level(q.include_ally_sub_15(), q.include_ally_over_15(), clauses, binds);
    proof {
        lemma_then_assoc(
            s0,
            level_part(q@.include_sub_15, q@.include_over_15),
            level_part(q@.include_ally_sub_15, q@.include_ally_over_15),
        );
    }
}

fn add_masteries(q: &ReplayCacheStatsQuery, clauses: &mut Vec<String>, binds: &mut Vec<StatsBindValue>)
    ensures
        built(final(clauses)@, final(binds)@) == then(
            built(old(clauses)@, old(binds)@),
            then(
                mastery_part(q@.include_main_normal_mastery, q@.include_main_abnormal_mastery),
                mastery_part(q@.include_ally_normal_mastery, q@.include_ally_abnormal_mastery),
            ),
        ),
{
    let ghost s0 = built(clauses@, binds@);
    add_mastery(q.include_main_normal_mastery(), q.include_main_abnormal_mastery(), clauses, binds);
    add_mastery(q.include_ally_normal_mastery(), q.include_ally_abnormal_mastery(), clauses, binds);
    proof {
        lemma_then_assoc(
            s0,
            mastery_part(q@.include_main_normal_mastery, q@.include_main_abnormal_mastery),
            mastery_part(q@.include_ally_normal_mastery, q@.include_ally_abnormal_mastery),
        );
    }
}

fn add_orientation(q: &ReplayCacheStatsQuery, clauses: &mut Vec<String>, binds: &mut Vec<StatsBindValue>)
    ensures
        built(final(clauses)@, final(binds)@) == then(built(old(clauses)@, old(binds)@), orientation_part(q@)),
{
    let ghost s0 = built(clauses@, binds@);
    let ghost levels = then(level_part(q@.include_sub_15, q@.include_over_15), level_part(q@.include_ally_sub_15, q@.include_ally_over_15));
    let ghost masteries = then(
        mastery_part(q@.include_main_normal_mastery, q@.include_main_abnormal_mastery),
        mastery_part(q@.include_ally_normal_mastery, q@.include_ally_abnormal_mastery),
    );
    add_levels(q, clauses, binds);
    add_masteries(q, clauses, binds);
    proof {
        lemma_then_assoc(s0, levels, masteries);
    }
    add_multibox(q, clauses, binds);
    proof {
        lemma_then_assoc(s0, then(levels, masteries), multibox_part(q@));
    }
}

fn add_exclusions(q: &ReplayCacheStatsQuery, clauses: &mut Vec<String>, binds: &mut Vec<StatsBindValue>)
    ensures
        built(final(clauses)@, final(binds)@) == then(
            built(old(clauses)@, old(binds)@),
            exclusions_part(q@.difficulty_exclusions, q@.difficulty_exclusions.len() as int),
        ),
{
    proof {
        reveal_strlit("Brutal");
        reveal_strlit("Casual");
        reveal_strlit("Normal");
        reveal_strlit("Hard");
    }
    let es = q.difficulty_exclusions();
    let ghost start = built(clauses@, binds@);
    proof {
        lemma_then_none(start);
    }
    for i in 0..es.len()
        invariant
            es@ == q@.difficulty_exclusions,
            built(clauses@, binds@) == then(start, exclusions_part(es@, i as int)),
    {
        let ghost before = built(clauses@, binds@);
        let e = &es[i];
        match e.brutal_plus_level() {
            Some(level) => {
                add_bound(clauses, binds, String::from_str(BRUTAL_PLUS_CLAUSE), StatsBindValue::Integer(level));
            },
            None => {
                let label = e.difficulty_label();
                match label {
                    Some(l) => {
                        let c = if e.is_brutal_label() {
                            concat(concat(BRUTAL_LABEL_PREFIX, DIFFICULTY_EXPRESSION).as_str(), BRUTAL_LABEL_SUFFIX)
                        } else {
                            concat(concat(LABEL_PREFIX, DIFFICULTY_EXPRESSION).as_str(), LABEL_SUFFIX)
                        };
                        add_bound(clauses, binds, c, StatsBindValue::Text(String::from_str(l)));
                    },
                    None => {},
                }
            },
        }
        proof {
            lemma_then_assoc(start, exclusions_part(es@, i as int), exclusion_part(es@[i as int]));
        }
    }
}

fn add_regions(q: &ReplayCacheStatsQuery, clauses: &mut Vec<String>, binds: &mut Vec<StatsBindValue>)
    ensures
        built(final(clauses)@, final(binds)@) == then(built(old(clauses)@, old(binds)@), region_part(q@)),
{
    let regions = q.region_exclusions();
    if regions.len() == 0 {
        proof {
            lemma_then_none(built(clauses@, binds@));
        }
        return;
    }
    let c1 = String::from_str(KNOWN_REGION_CLAUSE);
    let c2 = concat(concat(REGION_NOT_IN_PREFIX, ReplayCacheSqlBatch::in_placeholders(regions.len()).as_str()).as_str(), ")");
    push_clause(clauses, c1);
    push_clause(clauses, c2);
    push_text_binds(binds, regions, true);
    proof {
        assert(texts(clauses@) =~= texts(old(clauses)@) + seq![c1@, c2@]);
    }
}

/// Joins clauses with `sep`.
pub(crate) fn join_strings(parts: &Vec<String>, sep: &str) -> (r: String)
    ensures
        r@ == join_with(texts(parts@), sep@),
{
    let mut out = String::new();
    for i in 0..parts.len()
        invariant
            out@ == join_with(texts(parts@).take(i as int), sep@),
    {
        if i > 0 {
            out.append(sep);
        }
        out.append(parts[i].as_str());
        proof {
            assert(texts(parts@).take(i + 1).drop_last() =~= texts(parts@).take(i as int));
            if i == 0 {
                assert(texts(parts@).take(1).len() == 1);
            }
        }
    }
    proof {
        assert(texts(parts@).take(parts@.len() as int) =~= texts(parts@));
    }
    out
}

/// The `WHERE` text of a statistics filter and the values of its placeholders.
pub fn stats_where_clause_with_orientation_filters(
    query: &ReplayCacheStatsQuery,
    include_orientation_filters: bool,
) -> (r: (String, Vec<StatsBindValue>))
    ensures
        r.0@ == where_sql_spec(stats_filter_spec(query@, include_orientation_filters).clauses),
        bind_views(r.1@) == stats_filter_spec(query@, include_orientation_filters).binds,
{
    let mut clauses: Vec<String> = Vec::new();
    let mut binds: Vec<StatsBindValue> = Vec::new();
    let ghost q = query@;
    proof {
        assert(texts(clauses@) =~= Seq::<Seq<char>>::empty());
        assert(bind_views(binds@) =~= Seq::<StatsBindView>::empty());
        lemma_none_then(scope_part(q));
    }
    add_scope(query, &mut clauses, &mut binds);
    add_files(query, &mut clauses, &mut binds);
    add_game_type(query, &mut clauses, &mut binds);
    add_result(query, &mut clauses, &mut binds);
    add_length(query, &mut clauses, &mut binds);
    add_dates(query, &mut clauses, &mut binds);
    add_player(query, &mut clauses, &mut binds);
    if include_orientation_filters {
        add_orientation(query, &mut clauses, &mut binds);
    }
    add_exclusions(query, &mut clauses, &mut binds);
    if include_orientation_filters {
        add_regions(query, &mut clauses, &mut binds);
    }
    let where_sql = if clauses.len() == 0 {
        String::from_str(ALL_CLAUSE)
    } else {
        join_strings(&clauses, CLAUSE_SEPARATOR)
    };
    (where_sql, binds)
}

/// The statistics filter with every filter.
pub fn stats_where_clause(query: &ReplayCacheStatsQuery) -> (r: (String, Vec<StatsBindValue>))
    ensures
        r.0@ == where_sql_spec(stats_filter_spec(query@, true).clauses),
        bind_views(r.1@) == stats_filter_spec(query@, true).binds,
{
    stats_where_clause_with_orientation_filters(query, true)
}

/// The statistics filter without the orientation filters, for a first narrowing.
pub fn stats_prefilter_where_clause(query: &ReplayCacheStatsQuery) -> (r: (String, Vec<StatsBindValue>))
    ensures
        r.0@ == where_sql_spec(stats_filter_spec(query@, false).clauses),
        bind_views(r.1@) == stats_filter_spec(query@, false).binds,
{
    stats_where_clause_with_orientation_filters(query, false)
}

proof fn lemma_then_has_clause(a: StatsFilterPart, b: StatsFilterPart, c: Seq<char>)
    requires
        a.clauses.contains(c) || b.clauses.contains(c),
    ensures
        then(a, b).clauses.contains(c),
{
    let t = then(a, b).clauses;
    if a.clauses.contains(c) {
        let k = choose|k: int| 0 <= k < a.clauses.len() && a.clauses[k] == c;
        assert(t[k] == c);
    } else {
        let k = choose|k: int| 0 <= k < b.clauses.len() && b.clauses[k] == c;
        assert(t[a.clauses.len() + k] == c);
    }
}

proof fn lemma_join_holds_parts(parts: Seq<Seq<char>>, sep: Seq<char>, k: int)
    requires
        0 <= k < parts.len(),
    ensures
        contains_seq(join_with(parts, sep), parts[k]),
    decreases parts.len(),
{
    let j = join_with(parts, sep);
    if parts.len() == 1 {
        assert(j.subrange(0, parts[k].len() as int) =~= parts[k]);
        assert(occurs_at(j, parts[k], 0));
    } else {
        let d = parts.drop_last();
        let jd = join_with(d, sep);
        assert(j == jd + sep + parts.last());
        if k == parts.len() - 1 {
            let at = (jd.len() + sep.len()) as int;
            assert(j.subrange(at, at + parts[k].len()) =~= parts[k]);
            assert(occurs_at(j, parts[k], at));
        } else {
            lemma_join_holds_parts(d, sep, k);
            assert(d[k] == parts[k]);
            let at = choose|i: int| occurs_at(jd, parts[k], i);
            assert(j.subrange(at, at + parts[k].len()) =~= jd.subrange(at, at + parts[k].len()));
            assert(occurs_at(j, parts[k], at));
        }
    }
}

proof fn lemma_filter_holds_early_parts(q: StatsQueryView, include_orientation_filters: bool, c: Seq<char>)
    requires
        scope_part(q).clauses.contains(c) || game_type_part(q).clauses.contains(c) || result_part(q).clauses.contains(
            c,
        ),
    ensures
        stats_filter_spec(q, include_orientation_filters).clauses.contains(c),
        contains_seq(where_sql_spec(stats_filter_spec(q, include_orientation_filters).clauses), c),
{
    let p0 = then(scope_part(q), files_part(q));
    if scope_part(q).clauses.contains(c) {
        lemma_then_has_clause(scope_part(q), files_part(q), c);
    }
    if p0.clauses.contains(c) || game_type_part(q).clauses.contains(c) {
        lemma_then_has_clause(p0, game_type_part(q), c);
    }
    let p2 = then(p0, game_type_part(q));
    lemma_then_has_clause(p2, result_part(q), c);
    let p3 = then(p2, result_part(q));
    lemma_then_has_clause(p3, length_part(q), c);
    let p4 = then(p3, length_part(q));
    lemma_then_has_clause(p4, date_part(q), c);
    let p5 = then(p4, date_part(q));
    lemma_then_has_clause(p5, player_part(q), c);
    let base = then(p5, player_part(q));
    lemma_then_has_clause(base, orientation_part(q), c);
    let wo = if include_orientation_filters {
        then(base, orientation_part(q))
    } else {
        base
    };
    let ex = exclusions_part(q.difficulty_exclusions, q.difficulty_exclusions.len() as int);
    lemma_then_has_clause(wo, ex, c);
    let wd = then(wo, ex);
    lemma_then_has_clause(wd, region_part(q), c);
    let f = stats_filter_spec(q, include_orientation_filters);
    assert(f.clauses.contains(c));
    let k = choose|k: int| 0 <= k < f.clauses.len() && f.clauses[k] == c;
    lemma_join_holds_parts(f.clauses, CLAUSE_SEPARATOR@, k);
}

/// The switches of a statistics query shape its filter as asked; each clause below stands in
/// the filter and in its `WHERE` text:
/// - mutations but not normal games: mutation games only (`e.extension = 1`); normal games but
///   not mutations: normal games only (`e.extension = 0`); neither: nothing (`0 = 1`);
/// - wins but not losses: wins only; losses but not wins: losses only; neither: nothing;
/// - only detailed replays: the detailed-analysis clause.
pub proof fn law_query_switches_shape_filter(q: StatsQueryView, include_orientation_filters: bool)
    ensures
        ({
            let f = stats_filter_spec(q, include_orientation_filters);
            let holds = |c: Seq<char>| f.clauses.contains(c) && contains_seq(where_sql_spec(f.clauses), c);
            &&& q.include_mutations && !q.include_normal_games ==> holds(MUTATIONS_ONLY_CLAUSE@)
            &&& q.include_normal_games && !q.include_mutations ==> holds(NORMAL_GAMES_ONLY_CLAUSE@)
            &&& !q.include_normal_games && !q.include_mutations ==> holds(NEVER_CLAUSE@)
            &&& q.include_wins && !q.include_losses ==> holds(WINS_ONLY_CLAUSE@)
            &&& q.include_losses && !q.include_wins ==> holds(LOSSES_ONLY_CLAUSE@)
            &&& !q.include_wins && !q.include_losses ==> holds(NEVER_CLAUSE@)
            &&& q.scope == ReplayCacheReadScope::DetailedOnly ==> holds(DETAILED_ONLY_CLAUSE@)
        }),
{
    let g = game_type_part(q);
    let r = result_part(q);
    let sc = scope_part(q);
    if !q.include_normal_games || !q.include_mutations {
        assert(g.clauses.contains(g.clauses[0]));
        lemma_filter_holds_early_parts(q, include_orientation_filters, g.clauses[0]);
    }
    assert(r.clauses.contains(r.clauses[0]));
    lemma_filter_holds_early_parts(q, include_orientation_filters, r.clauses[0]);
    if q.scope == ReplayCacheReadScope::DetailedOnly {
        assert(sc.clauses.contains(sc.clauses[0]));
        lemma_filter_holds_early_parts(q, include_orientation_filters, sc.clauses[0]);
    }
}

} // verus!
