use vstd::prelude::*;

use crate::text::{
    decimal_seq, decimal_string,
    chars_eq_str, chars_of, contains_chars, contains_seq, is_ws, lower_chars, lower_seq,
    string_from_chars, trim_seq, trimmed_chars, lemma_trim_idempotent, lemma_trim_plain,
};

verus! {

/// Rows bound per statement when a query lists values.
pub const REPLAY_CACHE_QUERY_BATCH_SIZE: usize = 900;

/// `count` copies of `p`, separated by `, `.
pub open spec fn placeholder_list(p: Seq<char>, count: nat) -> Seq<char>
    decreases count,
{
    if count == 0 {
        Seq::empty()
    } else if count == 1 {
        p
    } else {
        placeholder_list(p, (count - 1) as nat) + ", "@ + p
    }
}

/// Number of batches that `n` values fill.
pub open spec fn batch_count(n: int) -> int {
    if n <= 0 {
        0
    } else {
        (n - 1) / (REPLAY_CACHE_QUERY_BATCH_SIZE as int) + 1
    }
}

/// The values of batch `i` of `s`: from `i` full batches on, at most one batch's worth.
pub open spec fn batch_of<T>(s: Seq<T>, i: int) -> Seq<T> {
    s.subrange(
        i * REPLAY_CACHE_QUERY_BATCH_SIZE,
        if (i + 1) * REPLAY_CACHE_QUERY_BATCH_SIZE <= s.len() {
            (i + 1) * REPLAY_CACHE_QUERY_BATCH_SIZE
        } else {
            s.len() as int
        },
    )
}

/// The first `k` batches of `s`, one after another.
pub open spec fn joined_batches<T>(s: Seq<T>, k: nat) -> Seq<T>
    decreases k,
{
    if k == 0 {
        Seq::empty()
    } else {
        joined_batches(s, (k - 1) as nat) + batch_of(s, k - 1)
    }
}

proof fn lemma_joined_batches_prefix<T>(s: Seq<T>, k: nat)
    requires
        k <= batch_count(s.len() as int),
    ensures
        joined_batches(s, k) == s.subrange(
            0,
            if k * REPLAY_CACHE_QUERY_BATCH_SIZE <= s.len() {
                k * REPLAY_CACHE_QUERY_BATCH_SIZE
            } else {
                s.len() as int
            },
        ),
    decreases k,
{
    if k > 0 {
        let j = (k - 1) as nat;
        lemma_joined_batches_prefix(s, j);
        let n = s.len() as int;
        assert(j * 900 < n) by (nonlinear_arith)
            requires
                j < (n - 1) / 900 + 1,
                n > 0,
        ;
        assert(k * 900 == j * 900 + 900) by (nonlinear_arith)
            requires
                k == j + 1,
        ;
        assert(joined_batches(s, k) =~= s.subrange(
            0,
            if k * REPLAY_CACHE_QUERY_BATCH_SIZE <= s.len() {
                k * REPLAY_CACHE_QUERY_BATCH_SIZE
            } else {
                s.len() as int
            },
        ));
    }
}

/// Cutting values into batches loses, repeats and reorders nothing: the batches joined
/// give the values back; there is no batch exactly when there is no value; every batch
/// holds between one and [`REPLAY_CACHE_QUERY_BATCH_SIZE`] values, and every batch but
/// the last is full.
pub proof fn law_batches_rejoin<T>(s: Seq<T>)
    ensures
        joined_batches(s, batch_count(s.len() as int) as nat) == s,
        (batch_count(s.len() as int) == 0) == (s.len() == 0),
        forall|i: int|
            0 <= i < batch_count(s.len() as int) ==> 1 <= (#[trigger] batch_of(s, i)).len()
                <= REPLAY_CACHE_QUERY_BATCH_SIZE,
        forall|i: int|
            0 <= i < batch_count(s.len() as int) - 1 ==> (#[trigger] batch_of(s, i)).len()
                == REPLAY_CACHE_QUERY_BATCH_SIZE,
{
    let n = s.len() as int;
    let c = batch_count(n);
    lemma_joined_batches_prefix(s, c as nat);
    if n > 0 {
        assert(c * 900 >= n) by (nonlinear_arith)
            requires
                c == (n - 1) / 900 + 1,
                n > 0,
        ;
    }
    assert(s.subrange(0, n) =~= s);
    assert forall|i: int| 0 <= i < c implies 1 <= (#[trigger] batch_of(s, i)).len() <= 900 by {
        assert(i * 900 < n && (i + 1) * 900 == i * 900 + 900) by (nonlinear_arith)
            requires
                0 <= i < (n - 1) / 900 + 1,
                n > 0,
        ;
    }
    assert forall|i: int| 0 <= i < c - 1 implies (#[trigger] batch_of(s, i)).len() == 900 by {
        assert((i + 1) * 900 <= n && (i + 1) * 900 == i * 900 + 900) by (nonlinear_arith)
            requires
                0 <= i < (n - 1) / 900,
                n > 0,
        ;
    }
}

pub struct ReplayCacheSqlBatch;

impl ReplayCacheSqlBatch {
    /// Splits values into consecutive non-empty batches of at most
    /// [`REPLAY_CACHE_QUERY_BATCH_SIZE`] values.
    pub fn chunks<T>(values: &[T]) -> (r: Vec<&[T]>)
        ensures
            r@.len() == batch_count(values@.len() as int),
            forall|i: int| 0 <= i < r@.len() ==> (#[trigger] r@[i])@ == batch_of(values@, i),
    {
        let n = values.len();
        let mut r: Vec<&[T]> = Vec::new();
        let mut start: usize = 0;
        while start < n
            invariant
                n == values@.len(),
                start <= n,
                start < n ==> start == r@.len() * REPLAY_CACHE_QUERY_BATCH_SIZE && r@.len() <= (n - 1) / (REPLAY_CACHE_QUERY_BATCH_SIZE as int),
                start == n ==> r@.len() == if n == 0 {
                    0
                } else {
                    (n - 1) / (REPLAY_CACHE_QUERY_BATCH_SIZE as int) + 1
                },
                forall|i: int|
                    0 <= i < r@.len() ==> (#[trigger] r@[i])@ == values@.subrange(
                        i * REPLAY_CACHE_QUERY_BATCH_SIZE,
                        if (i + 1) * REPLAY_CACHE_QUERY_BATCH_SIZE <= values@.len() {
                            (i + 1) * REPLAY_CACHE_QUERY_BATCH_SIZE
                        } else {
                            values@.len() as int
                        },
                    ),
            decreases n - start,
        {
            let end = if n - start > REPLAY_CACHE_QUERY_BATCH_SIZE {
                start + REPLAY_CACHE_QUERY_BATCH_SIZE
            } else {
                n
            };
            let ghost k = r@.len();
            r.push(&values[start..end]);
            proof {
                assert(r@[k as int]@ == values@.subrange(start as int, end as int));
                assert((k + 1) * REPLAY_CACHE_QUERY_BATCH_SIZE == start + REPLAY_CACHE_QUERY_BATCH_SIZE) by (nonlinear_arith)
                    requires
                        start == k * REPLAY_CACHE_QUERY_BATCH_SIZE,
                ;
                if end == n {
                    assert((n - 1) / (REPLAY_CACHE_QUERY_BATCH_SIZE as int) == k) by (nonlinear_arith)
                        requires
                            start == k * 900,
                            start < n,
                            n - start <= 900,
                    ;
                } else {
                    assert(k + 1 <= (n - 1) / (REPLAY_CACHE_QUERY_BATCH_SIZE as int)) by (nonlinear_arith)
                        requires
                            start == k * 900,
                            n - start > 900,
                    ;
                }
            }
            start = end;
        }
        r
    }

    /// `?, ?, …` with one marker per value.
    pub fn in_placeholders(value_count: usize) -> (r: String)
        ensures
            r@ == placeholder_list("?"@, value_count as nat),
    {
        Self::repeat_placeholder("?", value_count)
    }

    /// `(?), (?), …` with one row per value.
    pub fn values_placeholders(value_count: usize) -> (r: String)
        ensures
            r@ == placeholder_list("(?)"@, value_count as nat),
    {
        Self::repeat_placeholder("(?)", value_count)
    }

    fn repeat_placeholder(placeholder: &'static str, value_count: usize) -> (r: String)
        ensures
            r@ == placeholder_list(placeholder@, value_count as nat),
    {
        let mut r = String::new();
        let mut k: usize = 0;
        while k < value_count
            invariant
                k <= value_count,
                r@ == placeholder_list(placeholder@, k as nat),
            decreases value_count - k,
        {
            if k > 0 {
                r.append(", ");
            }
            r.append(placeholder);
            k = k + 1;
        }
        r
    }
}

} // verus!

verus! {

pub const HANDLE_SQL_HEAD: &'static str = "\n            CASE\n                WHEN INSTR(LOWER(TRIM(COALESCE(";
pub const HANDLE_SQL_MIDDLE: &'static str = ", ''))), '-s2-') > 0\n                THEN LOWER(TRIM(COALESCE(";
pub const HANDLE_SQL_TAIL: &'static str = ", '')))\n                ELSE ''\n            END\n            ";
pub const COMMANDER_SQL_HEAD: &'static str = "\n            CASE LOWER(TRIM(COALESCE(";
pub const COMMANDER_SQL_MIDDLE: &'static str = ", '')))\n                WHEN 'abathur' THEN 'Abathur'\n                WHEN 'alarak' THEN 'Alarak'\n                WHEN 'artanis' THEN 'Artanis'\n                WHEN 'dehaka' THEN 'Dehaka'\n                WHEN 'fenix' THEN 'Fenix'\n                WHEN 'han & horner' THEN 'Han & Horner'\n                WHEN 'han and horner' THEN 'Han & Horner'\n                WHEN 'hanhorner' THEN 'Han & Horner'\n                WHEN 'karax' THEN 'Karax'\n                WHEN 'kerrigan' THEN 'Kerrigan'\n                WHEN 'mengsk' THEN 'Mengsk'\n                WHEN 'arcturus mengsk' THEN 'Mengsk'\n                WHEN 'nova' THEN 'Nova'\n                WHEN 'raynor' THEN 'Raynor'\n                WHEN 'stukov' THEN 'Stukov'\n                WHEN 'swann' THEN 'Swann'\n                WHEN 'tychus' THEN 'Tychus'\n                WHEN 'vorazun' THEN 'Vorazun'\n                WHEN 'zagara' THEN 'Zagara'\n                WHEN 'zeratul' THEN 'Zeratul'\n                WHEN 'stetmann' THEN 'Stetmann'\n                ELSE TRIM(COALESCE(";
pub const COMMANDER_SQL_TAIL: &'static str = ", ''))\n            END\n            ";

/// The canonical commander name for a lower-cased commander text, if it names one.
pub open spec fn commander_alias(l: Seq<char>) -> Option<Seq<char>> {
    if l == "abathur"@ {
        Some("Abathur"@)
    } else if l == "alarak"@ {
        Some("Alarak"@)
    } else if l == "artanis"@ {
        Some("Artanis"@)
    } else if l == "dehaka"@ {
        Some("Dehaka"@)
    } else if l == "fenix"@ {
        Some("Fenix"@)
    } else if l == "han & horner"@ {
        Some("Han & Horner"@)
    } else if l == "han and horner"@ {
        Some("Han & Horner"@)
    } else if l == "hanhorner"@ {
        Some("Han & Horner"@)
    } else if l == "karax"@ {
        Some("Karax"@)
    } else if l == "kerrigan"@ {
        Some("Kerrigan"@)
    } else if l == "mengsk"@ {
        Some("Mengsk"@)
    } else if l == "arcturus mengsk"@ {
        Some("Mengsk"@)
    } else if l == "nova"@ {
        Some("Nova"@)
    } else if l == "raynor"@ {
        Some("Raynor"@)
    } else if l == "stukov"@ {
        Some("Stukov"@)
    } else if l == "swann"@ {
        Some("Swann"@)
    } else if l == "tychus"@ {
        Some("Tychus"@)
    } else if l == "vorazun"@ {
        Some("Vorazun"@)
    } else if l == "zagara"@ {
        Some("Zagara"@)
    } else if l == "zeratul"@ {
        Some("Zeratul"@)
    } else if l == "stetmann"@ {
        Some("Stetmann"@)
    } else {
        None
    }
}

/// Commander text as statistics group it: trimmed, and spelled canonically when it names a
/// known commander in any ASCII case.
pub open spec fn normalized_commander_spec(c: Seq<char>) -> Seq<char> {
    let t = trim_seq(c);
    if t.len() == 0 {
        t
    } else {
        match commander_alias(lower_seq(t)) {
            Some(n) => n,
            None => t,
        }
    }
}

proof fn lemma_commander_alias_fixed(l: Seq<char>)
    requires
        commander_alias(l) is Some,
    ensures
        commander_alias(l)->0.len() > 0,
        trim_seq(commander_alias(l)->0) == commander_alias(l)->0,
        commander_alias(lower_seq(trim_seq(commander_alias(l)->0))) == Some(commander_alias(l)->0),
{
    reveal_strlit("abathur");
    reveal_strlit("Abathur");
    reveal_strlit("alarak");
    reveal_strlit("Alarak");
    reveal_strlit("artanis");
    reveal_strlit("Artanis");
    reveal_strlit("dehaka");
    reveal_strlit("Dehaka");
    reveal_strlit("fenix");
    reveal_strlit("Fenix");
    reveal_strlit("han & horner");
    reveal_strlit("Han & Horner");
    reveal_strlit("han and horner");
    reveal_strlit("hanhorner");
    reveal_strlit("karax");
    reveal_strlit("Karax");
    reveal_strlit("kerrigan");
    reveal_strlit("Kerrigan");
    reveal_strlit("mengsk");
    reveal_strlit("Mengsk");
    reveal_strlit("arcturus mengsk");
    reveal_strlit("nova");
    reveal_strlit("Nova");
    reveal_strlit("raynor");
    reveal_strlit("Raynor");
    reveal_strlit("stukov");
    reveal_strlit("Stukov");
    reveal_strlit("swann");
    reveal_strlit("Swann");
    reveal_strlit("tychus");
    reveal_strlit("Tychus");
    reveal_strlit("vorazun");
    reveal_strlit("Vorazun");
    reveal_strlit("zagara");
    reveal_strlit("Zagara");
    reveal_strlit("zeratul");
    reveal_strlit("Zeratul");
    reveal_strlit("stetmann");
    reveal_strlit("Stetmann");
    let a = commander_alias(l)->0;
    if a == "Abathur"@ {
        lemma_trim_plain(a);
        assert(lower_seq(a) =~= "abathur"@);
        assert(commander_alias("abathur"@) == Some(a));
    }
    if a == "Alarak"@ {
        lemma_trim_plain(a);
        assert(lower_seq(a) =~= "alarak"@);
        assert(commander_alias("alarak"@) == Some(a));
    }
    if a == "Artanis"@ {
        lemma_trim_plain(a);
        assert(lower_seq(a) =~= "artanis"@);
        assert(commander_alias("artanis"@) == Some(a));
    }
    if a == "Dehaka"@ {
        lemma_trim_plain(a);
        assert(lower_seq(a) =~= "dehaka"@);
        assert(commander_alias("dehaka"@) == Some(a));
    }
    if a == "Fenix"@ {
        lemma_trim_plain(a);
        assert(lower_seq(a) =~= "fenix"@);
        assert(commander_alias("fenix"@) == Some(a));
    }
    if a == "Han & Horner"@ {
        lemma_trim_plain(a);
        assert(lower_seq(a) =~= "han & horner"@);
        assert(commander_alias("han & horner"@) == Some(a));
    }
    if a == "Karax"@ {
        lemma_trim_plain(a);
        assert(lower_seq(a) =~= "karax"@);
        assert(commander_alias("karax"@) == Some(a));
    }
    if a == "Kerrigan"@ {
        lemma_trim_plain(a);
        assert(lower_seq(a) =~= "kerrigan"@);
        assert(commander_alias("kerrigan"@) == Some(a));
    }
    if a == "Mengsk"@ {
        lemma_trim_plain(a);
        assert(lower_seq(a) =~= "mengsk"@);
        assert("mengsk"@[0] != "alarak"@[0] && "mengsk"@[0] != "dehaka"@[0]);
        assert(commander_alias("mengsk"@) == Some(a));
    }
    if a == "Nova"@ {
        lemma_trim_plain(a);
        assert(lower_seq(a) =~= "nova"@);
        assert(commander_alias("nova"@) == Some(a));
    }
    if a == "Raynor"@ {
        lemma_trim_plain(a);
        assert(lower_seq(a) =~= "raynor"@);
        assert(commander_alias("raynor"@) == Some(a));
    }
    if a == "Stukov"@ {
        lemma_trim_plain(a);
        assert(lower_seq(a) =~= "stukov"@);
        assert(commander_alias("stukov"@) == Some(a));
    }
    if a == "Swann"@ {
        lemma_trim_plain(a);
        assert(lower_seq(a) =~= "swann"@);
        assert(commander_alias("swann"@) == Some(a));
    }
    if a == "Tychus"@ {
        lemma_trim_plain(a);
        assert(lower_seq(a) =~= "tychus"@);
        assert(commander_alias("tychus"@) == Some(a));
    }
    if a == "Vorazun"@ {
        lemma_trim_plain(a);
        assert(lower_seq(a) =~= "vorazun"@);
        assert(commander_alias("vorazun"@) == Some(a));
    }
    if a == "Zagara"@ {
        lemma_trim_plain(a);
        assert(lower_seq(a) =~= "zagara"@);
        assert(commander_alias("zagara"@) == Some(a));
    }
    if a == "Zeratul"@ {
        lemma_trim_plain(a);
        assert(lower_seq(a) =~= "zeratul"@);
        assert(commander_alias("zeratul"@) == Some(a));
    }
    if a == "Stetmann"@ {
        lemma_trim_plain(a);
        assert(lower_seq(a) =~= "stetmann"@);
        assert(commander_alias("stetmann"@) == Some(a));
    }
}

/// Normalizing a commander text twice gives what normalizing it once gives; the result has
/// no whitespace at its ends, and it is empty exactly when the text is blank.
pub proof fn law_commander_normalization(c: Seq<char>)
    ensures
        normalized_commander_spec(normalized_commander_spec(c)) == normalized_commander_spec(c),
        trim_seq(normalized_commander_spec(c)) == normalized_commander_spec(c),
        (normalized_commander_spec(c).len() == 0) == (trim_seq(c).len() == 0),
{
    let t = trim_seq(c);
    lemma_trim_idempotent(c);
    if t.len() > 0 && commander_alias(lower_seq(t)) is Some {
        lemma_commander_alias_fixed(lower_seq(t));
    }
}

/// A player handle as a lookup key: trimmed and lower-cased when it is a Battle.net toon
/// handle (it holds `-s2-`), empty otherwise.
pub open spec fn normalized_handle_spec(h: Seq<char>) -> Seq<char> {
    let l = lower_seq(trim_seq(h));
    if contains_seq(l, "-s2-"@) {
        l
    } else {
        Seq::empty()
    }
}

pub open spec fn handle_key_sql_spec(column: Seq<char>) -> Seq<char> {
    HANDLE_SQL_HEAD@ + column + HANDLE_SQL_MIDDLE@ + column + HANDLE_SQL_TAIL@
}

pub open spec fn commander_sql_spec(column: Seq<char>) -> Seq<char> {
    COMMANDER_SQL_HEAD@ + column + COMMANDER_SQL_MIDDLE@ + column + COMMANDER_SQL_TAIL@
}

proof fn reveal_commander_labels() {
    reveal_strlit("abathur");
    reveal_strlit("alarak");
    reveal_strlit("arcturus mengsk");
    reveal_strlit("artanis");
    reveal_strlit("dehaka");
    reveal_strlit("fenix");
    reveal_strlit("han & horner");
    reveal_strlit("han and horner");
    reveal_strlit("hanhorner");
    reveal_strlit("karax");
    reveal_strlit("kerrigan");
    reveal_strlit("mengsk");
    reveal_strlit("nova");
    reveal_strlit("raynor");
    reveal_strlit("stetmann");
    reveal_strlit("stukov");
    reveal_strlit("swann");
    reveal_strlit("tychus");
    reveal_strlit("vorazun");
    reveal_strlit("zagara");
    reveal_strlit("zeratul");
}

pub struct ReplayCacheStatsFactOps;

impl ReplayCacheStatsFactOps {
    pub fn normalized_commander_name(commander: &str) -> (r: String)
        ensures
            r@ == normalized_commander_spec(commander@),
    {
        proof {
            reveal_commander_labels();
        }
        let t = trimmed_chars(commander);
        if t.len() == 0 {
            return string_from_chars(&t);
        }
        let l = lower_chars(&t);
        let name: &str = if chars_eq_str(&l, "abathur") {
            "Abathur"
        } else if chars_eq_str(&l, "alarak") {
            "Alarak"
        } else if chars_eq_str(&l, "artanis") {
            "Artanis"
        } else if chars_eq_str(&l, "dehaka") {
            "Dehaka"
        } else if chars_eq_str(&l, "fenix") {
            "Fenix"
        } else if chars_eq_str(&l, "han & horner") {
            "Han & Horner"
        } else if chars_eq_str(&l, "han and horner") {
            "Han & Horner"
        } else if chars_eq_str(&l, "hanhorner") {
            "Han & Horner"
        } else if chars_eq_str(&l, "karax") {
            "Karax"
        } else if chars_eq_str(&l, "kerrigan") {
            "Kerrigan"
        } else if chars_eq_str(&l, "mengsk") {
            "Mengsk"
        } else if chars_eq_str(&l, "arcturus mengsk") {
            "Mengsk"
        } else if chars_eq_str(&l, "nova") {
            "Nova"
        } else if chars_eq_str(&l, "raynor") {
            "Raynor"
        } else if chars_eq_str(&l, "stukov") {
            "Stukov"
        } else if chars_eq_str(&l, "swann") {
            "Swann"
        } else if chars_eq_str(&l, "tychus") {
            "Tychus"
        } else if chars_eq_str(&l, "vorazun") {
            "Vorazun"
        } else if chars_eq_str(&l, "zagara") {
            "Zagara"
        } else if chars_eq_str(&l, "zeratul") {
            "Zeratul"
        } else if chars_eq_str(&l, "stetmann") {
            "Stetmann"
        } else {
            return string_from_chars(&t);
        };
        String::from_str(name)
    }

    pub fn normalized_handle_key(handle: &str) -> (r: String)
        ensures
            r@ == normalized_handle_spec(handle@),
    {
        let t = trimmed_chars(handle);
        let l = lower_chars(&t);
        let marker = chars_of("-s2-");
        if contains_chars(&l, &marker) {
            string_from_chars(&l)
        } else {
            String::new()
        }
    }

    /// SQL expression computing [`normalized_handle_spec`] of a column.
    pub fn normalized_handle_key_sql(column: &str) -> (r: String)
        ensures
            r@ == handle_key_sql_spec(column@),
    {
        let mut s = String::from_str(HANDLE_SQL_HEAD);
        s.append(column);
        s.append(HANDLE_SQL_MIDDLE);
        s.append(column);
        s.append(HANDLE_SQL_TAIL);
        s
    }

    /// SQL expression computing [`normalized_commander_spec`] of a column.
    pub fn normalized_commander_sql(column: &str) -> (r: String)
        ensures
            r@ == commander_sql_spec(column@),
    {
        let mut s = String::from_str(COMMANDER_SQL_HEAD);
        s.append(column);
        s.append(COMMANDER_SQL_MIDDLE);
        s.append(column);
        s.append(COMMANDER_SQL_TAIL);
        s
    }
}

} // verus!

verus! {

pub open spec fn is_path_separator(c: char) -> bool {
    c == '/' || c == '\\'
}

/// The text after the last `/` or `\` (all of it when there is none).
pub open spec fn last_segment(s: Seq<char>) -> Seq<char>
    decreases s.len(),
{
    if s.len() == 0 {
        s
    } else if is_path_separator(s.last()) {
        Seq::empty()
    } else {
        last_segment(s.drop_last()).push(s.last())
    }
}

/// The file name stored for a replay path: its last segment, trimmed, or the whole path when
/// that is empty.
pub open spec fn replay_file_name_spec(file: Seq<char>) -> Seq<char> {
    let t = trim_seq(last_segment(file));
    if t.len() == 0 {
        file
    } else {
        t
    }
}

/// Start of the last segment of `v`.
fn last_segment_start(v: &Vec<char>) -> (r: usize)
    ensures
        r <= v@.len(),
        v@.subrange(r as int, v@.len() as int) == last_segment(v@),
{
    let n = v.len();
    let mut j = n;
    assert(v@.subrange(n as int, n as int) =~= Seq::<char>::empty());
    assert(v@.subrange(0, n as int) =~= v@);
    while j > 0 && !(v[j - 1] == '/' || v[j - 1] == '\\')
        invariant
            j <= n == v@.len(),
            last_segment(v@) == last_segment(v@.subrange(0, j as int)) + v@.subrange(j as int, n as int),
        decreases j,
    {
        let ghost p = v@.subrange(0, j as int);
        assert(p.drop_last() =~= v@.subrange(0, j - 1));
        assert(v@.subrange(j - 1, n as int) =~= seq![p.last()] + v@.subrange(j as int, n as int));
        assert(last_segment(p) == last_segment(p.drop_last()).push(p.last()));
        assert(last_segment(p.drop_last()).push(p.last()) + v@.subrange(j as int, n as int)
            =~= last_segment(p.drop_last()) + v@.subrange(j - 1, n as int));
        j = j - 1;
    }
    if j > 0 {
        let ghost p = v@.subrange(0, j as int);
        assert(last_segment(p) == Seq::<char>::empty());
        assert(Seq::<char>::empty() + v@.subrange(j as int, n as int) =~= v@.subrange(j as int, n as int));
    } else {
        assert(v@.subrange(0, 0) =~= Seq::<char>::empty());
        assert(Seq::<char>::empty() + v@.subrange(0, n as int) =~= v@.subrange(0, n as int));
    }
    j
}

/// The stored file name of a replay path.
pub struct ReplayCacheFileName {
    value: String,
}

impl ReplayCacheFileName {
    pub closed spec fn value_view(self) -> Seq<char> {
        self.value@
    }

    pub fn from_replay_file(file: &str) -> (r: Self)
        ensures
            r.value_view() == replay_file_name_spec(file@),
    {
        let v = chars_of(file);
        let start = last_segment_start(&v);
        let seg = crate::text::copy_range(&v, start, v.len());
        let (a, b) = crate::text::trim_bounds(&seg);
        if a == b {
            Self { value: String::from_str(file) }
        } else {
            let t = crate::text::copy_range(&seg, a, b);
            Self { value: string_from_chars(&t) }
        }
    }

    pub fn into_string(self) -> (r: String)
        ensures
            r@ == self.value_view(),
    {
        self.value
    }
}

/// Where replay cache entries are written: the path of the cache they belong to.
#[derive(Debug, Clone)]
pub struct SqliteReplayCacheEntrySink {
    cache_path: String,
}

impl SqliteReplayCacheEntrySink {
    pub closed spec fn cache_path_view(self) -> Seq<char> {
        self.cache_path@
    }

    pub fn new(cache_path: String) -> (r: Self)
        ensures
            r.cache_path_view() == cache_path@,
    {
        Self { cache_path }
    }

    pub fn cache_path(&self) -> (r: &str)
        ensures
            r@ == self.cache_path_view(),
    {
        self.cache_path.as_str()
    }
}

} // verus!

verus! {

/// `serde_json::Error`, carried without being read.
#[verifier::external_type_specification]
#[verifier::external_body]
pub struct ExJsonError(serde_json::Error);

/// `rusqlite::Error`, carried without being read.
#[verifier::external_type_specification]
#[verifier::external_body]
pub struct ExSqliteError(rusqlite::Error);

/// `std::io::Error`, carried without being read.
#[verifier::external_type_specification]
#[verifier::external_body]
pub struct ExIoError(std::io::Error);

/// What went wrong with the replay cache database; paths are given as text.
pub enum ReplayCacheDbError {
    Io { path: String, source: std::io::Error },
    Json { path: String, source: serde_json::Error },
    JsonArray { context: &'static str, source: serde_json::Error },
    Sqlite { path: String, source: rusqlite::Error },
    UnsupportedSchema { path: String, version: i32, supported: i32 },
}

} // verus!

verus! {

/// The lock code `sqlite_lock_code` reads from an error; it depends on the error alone.
pub uninterp spec fn sqlite_lock_code_of(e: rusqlite::Error) -> Option<SqliteLockCode>;

/// Writes `serde_json::Error` out with its `Display`. An I/O error inside it is written by
/// `std::io::Error`, whose text comes from the system, so nothing is promised of the text.
#[verifier::external_body]
fn json_error_text(e: &serde_json::Error) -> String {
    e.to_string()
}

/// Writes `rusqlite::Error` out with its `Display`. Some variants write a boxed error, which
/// may be an I/O error with the system's text, so nothing is promised of the text.
#[verifier::external_body]
fn sqlite_error_text(e: &rusqlite::Error) -> String {
    e.to_string()
}

/// Writes `std::io::Error` out with its `Display`. An operating-system error's text comes from
/// the system, so it is not named and nothing is promised of it.
#[verifier::external_body]
fn io_error_text(e: &std::io::Error) -> String {
    e.to_string()
}

/// The SQLite result codes that tell a lock apart from other failures.
#[derive(Clone, Copy, Debug, PartialEq, Eq, Structural)]
pub enum SqliteLockCode {
    DatabaseBusy,
    DatabaseLocked,
    Other,
}

/// The SQLite result code of `rusqlite::Error::sqlite_error_code`, sorted into busy, locked
/// and any other; nothing when the error is not an SQLite failure. It depends on the error
/// alone and is named [`sqlite_lock_code_of`].
#[verifier::external_body]
fn sqlite_lock_code(e: &rusqlite::Error) -> (r: Option<SqliteLockCode>)
    ensures
        r == sqlite_lock_code_of(*e),
{
    match e.sqlite_error_code() {
        Some(rusqlite::ErrorCode::DatabaseBusy) => Some(SqliteLockCode::DatabaseBusy),
        Some(rusqlite::ErrorCode::DatabaseLocked) => Some(SqliteLockCode::DatabaseLocked),
        Some(_) => Some(SqliteLockCode::Other),
        None => None,
    }
}

/// `v` in decimal, with a `-` when negative.
pub open spec fn signed_decimal(v: int) -> Seq<char> {
    if v < 0 {
        "-"@ + decimal_seq((-v) as nat)
    } else {
        decimal_seq(v as nat)
    }
}

pub(crate) fn push_signed(out: &mut String, v: i32)
    ensures
        final(out)@ == old(out)@ + signed_decimal(v as int),
{
    proof {
        reveal_strlit("-");
    }
    if v < 0 {
        out.append("-");
        let m: u64 = (-(v as i64)) as u64;
        out.append(decimal_string(m).as_str());
    } else {
        out.append(decimal_string(v as u64).as_str());
    }
}

/// Whether an SQLite result code is a lock: the database busy or a table locked.
pub fn is_lock_code(code: Option<SqliteLockCode>) -> (r: bool)
    ensures
        r == (code == Some(SqliteLockCode::DatabaseBusy) || code == Some(SqliteLockCode::DatabaseLocked)),
{
    match code {
        Some(SqliteLockCode::DatabaseBusy) => true,
        Some(SqliteLockCode::DatabaseLocked) => true,
        _ => false,
    }
}

impl ReplayCacheDbError {
    /// Whether this is an SQLite failure because the database was busy or a table locked;
    /// never for the other kinds of error.
    pub fn is_sqlite_lock(&self) -> (r: bool)
        ensures
            r == match self {
                ReplayCacheDbError::Sqlite { source, .. } => sqlite_lock_code_of(*source) == Some(
                    SqliteLockCode::DatabaseBusy,
                ) || sqlite_lock_code_of(*source) == Some(SqliteLockCode::DatabaseLocked),
                _ => false,
            },
    {
        match self {
            ReplayCacheDbError::Sqlite { source, .. } => is_lock_code(sqlite_lock_code(source)),
            _ => false,
        }
    }

    /// What went wrong, as text: the kind, the file or the array, and the cause.
    pub fn message(&self) -> (r: String)
        ensures
            match self {
                ReplayCacheDbError::Io { path, .. } => exists|t: Seq<char>|
                    r@ == "cache database io error '"@ + path@ + "': "@ + t,
                ReplayCacheDbError::Json { path, .. } => exists|t: Seq<char>|
                    r@ == "cache database json import error '"@ + path@ + "': "@ + t,
                ReplayCacheDbError::JsonArray { context, .. } => exists|t: Seq<char>|
                    r@ == "cache database json array error '"@ + context@ + "': "@ + t,
                ReplayCacheDbError::Sqlite { path, .. } => exists|t: Seq<char>|
                    r@ == "cache database sqlite error '"@ + path@ + "': "@ + t,
                ReplayCacheDbError::UnsupportedSchema { path, version, supported } => r@ == "cache database '"@
                    + path@ + "' has unsupported schema version "@ + signed_decimal(*version as int)
                    + "; supported version is "@ + signed_decimal(*supported as int),
            },
    {
        match self {
            ReplayCacheDbError::Io { path, source } => {
                let mut m = String::from_str("cache database io error '");
                m.append(path.as_str());
                m.append("': ");
                let t = io_error_text(source);
                let ghost before = m@;
                m.append(t.as_str());
                assert(m@ == before + t@);
                m
            },
            ReplayCacheDbError::Json { path, source } => {
                let mut m = String::from_str("cache database json import error '");
                m.append(path.as_str());
                m.append("': ");
                let t = json_error_text(source);
                let ghost before = m@;
                m.append(t.as_str());
                assert(m@ == before + t@);
                m
            },
            ReplayCacheDbError::JsonArray { context, source } => {
                let mut m = String::from_str("cache database json array error '");
                m.append(context);
                m.append("': ");
                let t = json_error_text(source);
                let ghost before = m@;
                m.append(t.as_str());
                assert(m@ == before + t@);
                m
            },
            ReplayCacheDbError::Sqlite { path, source } => {
                let mut m = String::from_str("cache database sqlite error '");
                m.append(path.as_str());
                m.append("': ");
                let t = sqlite_error_text(source);
                let ghost before = m@;
                m.append(t.as_str());
                assert(m@ == before + t@);
                m
            },
            ReplayCacheDbError::UnsupportedSchema { path, version, supported } => {
                let mut m = String::from_str("cache database '");
                m.append(path.as_str());
                m.append("' has unsupported schema version ");
                push_signed(&mut m, *version);
                m.append("; supported version is ");
                push_signed(&mut m, *supported);
                m
            },
        }
    }
}

} // verus!

verus! {

/// Statements on the replay cache table.
pub struct ReplayCacheEntrySql;

impl ReplayCacheEntrySql {
    pub const DELETE_ALL: &'static str = "DELETE FROM replay_cache_entries";

    pub const DELETE_BY_FILE_EXCEPT_HASH: &'static str = "DELETE FROM replay_cache_entries WHERE file = ?1 AND hash <> ?2";

    pub const SELECT_BY_HASH: &'static str = "\n        SELECT\n            id,\n            hash,\n            file,\n            file_name,\n            date_text,\n            date_seconds,\n            detailed_analysis,\n            result,\n            map_name,\n            difficulty_p1,\n            difficulty_p2,\n            ext_difficulty,\n            brutal_plus,\n            extension,\n            weekly,\n            region,\n            length_ingame_seconds,\n            length_realtime_kind,\n            length_realtime_int,\n            length_realtime_float,\n            form_length_realtime,\n            replay_build,\n            protocol_build_kind,\n            protocol_build_int,\n            protocol_build_text,\n            comp,\n            enemy_race,\n            has_amon_units,\n            has_bonus,\n            has_player_stats,\n            mutator_values,\n            bonus_values,\n            updated_at_seconds\n        FROM replay_cache_entries\n        WHERE hash = ?1\n    ";

    pub const SELECT_FILES: &'static str = "SELECT file FROM replay_cache_entries";
}

} // verus!

verus! {

/// The files SQLite keeps beside a database: the database, its write-ahead log, its shared
/// memory and its rollback journal.
pub open spec fn db_related_paths_spec(db_path: Seq<char>) -> Seq<Seq<char>> {
    seq![db_path, db_path + "-wal"@, db_path + "-shm"@, db_path + "-journal"@]
}

fn with_suffix(path: &str, suffix: &str) -> (r: String)
    ensures
        r@ == path@ + suffix@,
{
    let mut s = String::from_str(path);
    s.append(suffix);
    s
}

/// Where the replay cache database and its legacy files are, given a cache path.
pub struct ReplayCacheDbPaths;

impl ReplayCacheDbPaths {
    /// Whether a path's extension (as the path gives it) marks an SQLite database: `sqlite3`
    /// in any ASCII case.
    pub fn is_sqlite3_extension(extension: Option<&str>) -> (r: bool)
        ensures
            r == match extension {
                Some(e) => lower_seq(e@) == "sqlite3"@,
                None => false,
            },
    {
        match extension {
            Some(e) => {
                let l = lower_chars(&chars_of(e));
                chars_eq_str(&l, "sqlite3")
            },
            None => false,
        }
    }

    /// The database and the files SQLite keeps beside it (see [`db_related_paths_spec`]).
    pub fn db_related_paths(db_path: &str) -> (r: Vec<String>)
        ensures
            r@.map_values(|p: String| p@) == db_related_paths_spec(db_path@),
    {
        let r = vec![
            String::from_str(db_path),
            with_suffix(db_path, "-wal"),
            with_suffix(db_path, "-shm"),
            with_suffix(db_path, "-journal"),
        ];
        assert(r@.map_values(|p: String| p@) =~= db_related_paths_spec(db_path@));
        r
    }
}

} // verus!
