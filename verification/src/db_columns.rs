use vstd::prelude::*;

use crate::text::{lower_chars, lower_seq, str_eq, string_from_chars, trim_seq, trimmed_chars};

verus! {

/// A unit count as a replay stores it: a number, or hidden behind a mark.
#[derive(Clone, Debug, PartialEq, Eq)]
pub enum CacheCountValue {
    Count(i64),
    Hidden(String),
}

/// A unit count as plain values.
pub enum CountView {
    Count(i64),
    Hidden(Seq<char>),
}

impl View for CacheCountValue {
    type V = CountView;

    open spec fn view(&self) -> CountView {
        match self {
            CacheCountValue::Count(n) => CountView::Count(*n),
            CacheCountValue::Hidden(m) => CountView::Hidden(m@),
        }
    }
}

/// A protocol build as a replay stores it: a number or a text.
#[derive(Clone, Debug, PartialEq, Eq)]
pub enum ProtocolBuildValue {
    Int(u32),
    Str(String),
}

/// A protocol build as plain values.
pub enum BuildView {
    Int(u32),
    Str(Seq<char>),
}

impl View for ProtocolBuildValue {
    type V = BuildView;

    open spec fn view(&self) -> BuildView {
        match self {
            ProtocolBuildValue::Int(n) => BuildView::Int(*n),
            ProtocolBuildValue::Str(s) => BuildView::Str(s@),
        }
    }
}

/// 1 for `true`, 0 for `false`.
pub open spec fn flag_column(value: bool) -> i64 {
    if value {
        1
    } else {
        0
    }
}

/// A stored value as a `u64`: itself when not negative, else 0.
pub open spec fn stored_u64(value: i64) -> u64 {
    if value >= 0 {
        value as u64
    } else {
        0
    }
}

/// A `u64` as stored: itself when it fits an `i64`, else `i64::MAX`.
pub open spec fn u64_column(value: u64) -> i64 {
    if value <= i64::MAX {
        value as i64
    } else {
        i64::MAX
    }
}

/// A stored value as a `u32`: itself when it fits, else 0.
pub open spec fn stored_u32(value: i64) -> u32 {
    if 0 <= value <= u32::MAX {
        value as u32
    } else {
        0
    }
}

/// The kind and number columns of a unit count.
pub open spec fn count_columns_spec(v: CountView) -> (Seq<char>, Option<i64>) {
    match v {
        CountView::Count(n) => ("count"@, Some(n)),
        CountView::Hidden(_) => ("hidden"@, None),
    }
}

/// The unit count that kind and number columns store.
pub open spec fn count_from_columns_spec(kind: Seq<char>, count: Option<i64>) -> CountView {
    if kind == "hidden"@ {
        CountView::Hidden("-"@)
    } else {
        CountView::Count(
            match count {
                Some(n) => n,
                None => 0,
            },
        )
    }
}

/// The kind, number and text columns of a protocol build.
pub open spec fn build_columns_spec(v: BuildView) -> (Seq<char>, Option<i64>, Option<Seq<char>>) {
    match v {
        BuildView::Int(n) => ("integer"@, Some(n as i64), None),
        BuildView::Str(s) => ("text"@, None, Some(s)),
    }
}

/// The protocol build that kind, number and text columns store.
pub open spec fn build_from_columns_spec(kind: Seq<char>, int_value: Option<i64>, text_value: Option<Seq<char>>) -> BuildView {
    if kind == "text"@ {
        BuildView::Str(
            match text_value {
                Some(t) => t,
                None => Seq::empty(),
            },
        )
    } else {
        BuildView::Int(
            match int_value {
                Some(v) => stored_u32(v),
                None => 0,
            },
        )
    }
}

pub open spec fn opt_text_view(o: Option<String>) -> Option<Seq<char>> {
    match o {
        Some(s) => Some(s@),
        None => None,
    }
}

/// `s` with every `%`, `_` and `\` escaped by a `\`, for a `LIKE ... ESCAPE '\'` pattern.
pub open spec fn like_literal(s: Seq<char>) -> Seq<char>
    decreases s.len(),
{
    if s.len() == 0 {
        Seq::empty()
    } else {
        let c = s.last();
        like_literal(s.drop_last()) + if c == '%' || c == '_' || c == '\\' {
            seq!['\\', c]
        } else {
            seq![c]
        }
    }
}

/// The `LIKE` pattern that finds `value` (trimmed, in ASCII lower case) anywhere in a text.
pub open spec fn contains_pattern_spec(value: Seq<char>) -> Seq<char> {
    seq!['%'] + like_literal(lower_seq(trim_seq(value))) + seq!['%']
}

/// Conversions between stored column values and the values they stand for.
pub struct ReplayCacheColumns;

impl ReplayCacheColumns {
    /// 1 for `true`, 0 for `false`.
    pub fn bool_to_i64(value: bool) -> (r: i64)
        ensures
            r == flag_column(value),
    {
        if value {
            1
        } else {
            0
        }
    }

    /// Any value but 0 is `true`.
    pub fn i64_to_bool(value: i64) -> (r: bool)
        ensures
            r == (value != 0),
    {
        value != 0
    }

    /// The value when it fits an `i64`, else `i64::MAX`.
    pub fn u64_to_i64(value: u64) -> (r: i64)
        ensures
            r == u64_column(value),
    {
        if value <= i64::MAX as u64 {
            value as i64
        } else {
            i64::MAX
        }
    }

    /// The value when it fits an `i64`, else `i64::MAX`.
    pub fn usize_to_i64(value: usize) -> (r: i64)
        ensures
            r == if value <= i64::MAX {
                value as i64
            } else {
                i64::MAX
            },
    {
        if value as u64 <= i64::MAX as u64 {
            value as i64
        } else {
            i64::MAX
        }
    }

    /// The value when it is not negative, else 0.
    pub fn i64_to_u64(value: i64) -> (r: u64)
        ensures
            r == stored_u64(value),
    {
        if value >= 0 {
            value as u64
        } else {
            0
        }
    }

    /// The value when it fits a `u32`, else 0.
    pub fn i64_to_u32(value: i64) -> (r: u32)
        ensures
            r == stored_u32(value),
    {
        if 0 <= value && value <= u32::MAX as i64 {
            value as u32
        } else {
            0
        }
    }

    /// The kind and number columns of a unit count: `("count", n)` or `("hidden", none)`.
    pub fn count_value_columns(value: &CacheCountValue) -> (r: (&'static str, Option<i64>))
        ensures
            (r.0@, r.1) == count_columns_spec(value@),
    {
        proof {
            reveal_strlit("count");
            reveal_strlit("hidden");
        }
        match value {
            CacheCountValue::Count(n) => ("count", Some(*n)),
            CacheCountValue::Hidden(_) => ("hidden", None),
        }
    }

    /// The unit count that the kind and number columns store: hidden (shown as `-`) when the
    /// kind is `hidden`, else the number (0 when missing).
    pub fn count_value_from_kind_and_count(kind: String, count: Option<i64>) -> (r: CacheCountValue)
        ensures
            r@ == count_from_columns_spec(kind@, count),
    {
        proof {
            reveal_strlit("-");
        }
        if str_eq(kind.as_str(), "hidden") {
            CacheCountValue::Hidden(String::from_str("-"))
        } else {
            CacheCountValue::Count(
                match count {
                    Some(n) => n,
                    None => 0,
                },
            )
        }
    }

    /// The hidden flag and the number of a unit count, as statistics facts store them.
    pub fn unit_count_fact_columns(value: &CacheCountValue) -> (r: (i64, i64))
        ensures
            match value {
                CacheCountValue::Count(n) => r == (0i64, *n),
                CacheCountValue::Hidden(_) => r == (1i64, 0i64),
            },
    {
        match value {
            CacheCountValue::Count(n) => (0, *n),
            CacheCountValue::Hidden(_) => (1, 0),
        }
    }

    /// The kind, number and text columns of a protocol build.
    pub fn protocol_build_columns(value: &ProtocolBuildValue) -> (r: (&'static str, Option<i64>, Option<String>))
        ensures
            (r.0@, r.1, opt_text_view(r.2)) == build_columns_spec(value@),
    {
        match value {
            ProtocolBuildValue::Int(n) => ("integer", Some(*n as i64), None),
            ProtocolBuildValue::Str(s) => ("text", None, Some(s.clone())),
        }
    }

    /// The protocol build that the columns store: the text when the kind is `text` (empty when
    /// missing), else the number (0 when missing or out of range).
    pub fn protocol_build_from_columns(kind: &str, int_value: Option<i64>, text_value: Option<String>) -> (r:
        ProtocolBuildValue)
        ensures
            r@ == build_from_columns_spec(kind@, int_value, opt_text_view(text_value)),
    {
        if str_eq(kind, "text") {
            ProtocolBuildValue::Str(
                match text_value {
                    Some(t) => t,
                    None => String::new(),
                },
            )
        } else {
            ProtocolBuildValue::Int(
                match int_value {
                    Some(v) => Self::i64_to_u32(v),
                    None => 0,
                },
            )
        }
    }

    /// The `LIKE` pattern that finds `value` anywhere (see [`contains_pattern_spec`]).
    pub fn sqlite_contains_pattern(value: &str) -> (r: String)
        ensures
            r@ == contains_pattern_spec(value@),
    {
        let t = trimmed_chars(value);
        let l = lower_chars(&t);
        let mut out: Vec<char> = Vec::new();
        out.push('%');
        let mut k: usize = 0;
        while k < l.len()
            invariant
                k <= l@.len(),
                l@ == lower_seq(trim_seq(value@)),
                out@ == seq!['%'] + like_literal(l@.take(k as int)),
            decreases l@.len() - k,
        {
            let c = l[k];
            if c == '%' || c == '_' || c == '\\' {
                out.push('\\');
                out.push(c);
            } else {
                out.push(c);
            }
            proof {
                assert(l@.take(k + 1).drop_last() =~= l@.take(k as int));
                assert(out@ =~= seq!['%'] + like_literal(l@.take(k + 1)));
            }
            k = k + 1;
        }
        out.push('%');
        proof {
            assert(l@.take(l@.len() as int) =~= l@);
        }
        string_from_chars(&out)
    }
}

/// A flag stored as a column reads back as the same flag.
pub proof fn law_flag_round_trip(value: bool)
    ensures
        (flag_column(value) != 0) == value,
{
}

/// A `u64` that fits an `i64` reads back unchanged; a larger one reads back as `i64::MAX`.
pub proof fn law_u64_round_trip(value: u64)
    ensures
        value <= i64::MAX ==> stored_u64(u64_column(value)) == value,
        value > i64::MAX ==> stored_u64(u64_column(value)) == i64::MAX,
{
}

/// A number of units stored as columns reads back as the same number; a hidden count reads
/// back hidden.
pub proof fn law_count_columns_round_trip(value: CountView)
    ensures
        value is Count ==> count_from_columns_spec(count_columns_spec(value).0, count_columns_spec(value).1)
            == value,
        value is Hidden ==> count_from_columns_spec(count_columns_spec(value).0, count_columns_spec(value).1)
            is Hidden,
{
    reveal_strlit("count");
    reveal_strlit("hidden");
    assert("count"@.len() != "hidden"@.len());
}

/// A protocol build stored as columns reads back as the same build.
pub proof fn law_protocol_build_round_trip(value: BuildView)
    ensures
        build_from_columns_spec(build_columns_spec(value).0, build_columns_spec(value).1, build_columns_spec(value).2)
            == value,
{
    reveal_strlit("integer");
    reveal_strlit("text");
    assert("integer"@.len() != "text"@.len());
}

} // verus!
