use vstd::prelude::*;

use crate::app_settings::AppSettingsOps;
use crate::text::{
    ascii_lower, chars_of, has_char, has_char_exec, string_from_chars, to_ascii_lower_char, trim_seq,
    trimmed_chars,
};

verus! {

pub open spec fn is_quote(c: char) -> bool {
    c == '"' || c == '\''
}

pub open spec fn is_path_sep(c: char) -> bool {
    c == '\\' || c == '/'
}

/// `s` without its leading quotes.
pub open spec fn strip_start_quotes(s: Seq<char>) -> Seq<char>
    decreases s.len(),
{
    if s.len() > 0 && is_quote(s[0]) {
        strip_start_quotes(s.drop_first())
    } else {
        s
    }
}

/// `s` without its trailing quotes.
pub open spec fn strip_end_quotes(s: Seq<char>) -> Seq<char>
    decreases s.len(),
{
    if s.len() > 0 && is_quote(s.last()) {
        strip_end_quotes(s.drop_last())
    } else {
        s
    }
}

/// `s` without its leading path separators (`\` or `/`).
pub open spec fn strip_start_seps(s: Seq<char>) -> Seq<char>
    decreases s.len(),
{
    if s.len() > 0 && is_path_sep(s[0]) {
        strip_start_seps(s.drop_first())
    } else {
        s
    }
}

/// `s` without its leading `/`.
pub open spec fn strip_start_slashes(s: Seq<char>) -> Seq<char>
    decreases s.len(),
{
    if s.len() > 0 && s[0] == '/' {
        strip_start_slashes(s.drop_first())
    } else {
        s
    }
}

/// `s` with every `from` replaced by `to`.
pub open spec fn replace_char(s: Seq<char>, from: char, to: char) -> Seq<char> {
    s.map_values(|c: char| if c == from {
        to
    } else {
        c
    })
}

/// The account folder as written, trimmed of whitespace and then of quotes.
pub open spec fn root_text(raw: Seq<char>) -> Seq<char> {
    strip_end_quotes(strip_start_quotes(trim_seq(raw)))
}

/// The folder with the other kind of separator: `\` made `/` when it has any, else `/` made `\`.
pub open spec fn swapped_root(t: Seq<char>) -> Seq<char> {
    if has_char(t, '\\') {
        replace_char(t, '\\', '/')
    } else {
        replace_char(t, '/', '\\')
    }
}

/// Whether the folder starts with a drive letter and `:`.
pub open spec fn has_drive_prefix(t: Seq<char>) -> bool {
    t.len() >= 2 && t[1] == ':'
}

/// The number of UTF-8 bytes of a character.
pub open spec fn utf8_len(c: char) -> nat {
    if (c as u32) < 0x80 {
        1
    } else if (c as u32) < 0x800 {
        2
    } else if (c as u32) < 0x10000 {
        3
    } else {
        4
    }
}

/// The part of the folder after its first two bytes, without leading separators.
pub open spec fn after_drive(t: Seq<char>) -> Seq<char> {
    let skip: int = if utf8_len(t[0]) == 1 {
        2
    } else {
        1
    };
    strip_start_seps(t.subrange(skip, t.len() as int))
}

/// The same folder as a Linux subsystem sees a Windows drive: `/mnt/<drive>/<rest>`.
pub open spec fn wsl_root(t: Seq<char>) -> Seq<char> {
    "/mnt/"@ + seq![ascii_lower(t[0])] + "/"@ + strip_start_slashes(replace_char(after_drive(t), '\\', '/'))
}

/// Whether the account folder can be read for candidates: a folder with a drive prefix must
/// not start with a character of three or more UTF-8 bytes (its second byte would split it).
pub open spec fn root_text_readable(raw: Seq<char>) -> bool {
    has_drive_prefix(root_text(raw)) ==> utf8_len(root_text(raw)[0]) <= 2
}

/// The folder, then the swapped one and the Linux subsystem one where they are kept.
pub open spec fn candidates_spec(t: Seq<char>, with_swapped: bool, with_wsl: bool) -> Seq<Seq<char>> {
    seq![t] + (if with_swapped {
        seq![swapped_root(t)]
    } else {
        Seq::empty()
    }) + (if with_wsl {
        seq![wsl_root(t)]
    } else {
        Seq::empty()
    })
}

/// Compares two paths as `std::path::Path` does (by their components, with the separators of
/// the platform). What it returns depends on the platform; the same text is always the same
/// path.
#[verifier::external_body]
fn paths_equal(a: &str, b: &str) -> (r: bool)
    ensures
        a@ == b@ ==> r,
{
    std::path::Path::new(a) == std::path::Path::new(b)
}

fn strip_quote_bounds(v: &Vec<char>) -> (r: (usize, usize))
    ensures
        r.0 <= r.1 <= v@.len(),
        v@.subrange(r.0 as int, r.1 as int) == strip_end_quotes(strip_start_quotes(v@)),
{
    let n = v.len();
    let mut i: usize = 0;
    proof {
        assert(v@.subrange(0, n as int) =~= v@);
    }
    while i < n && (v[i] == '"' || v[i] == '\'')
        invariant
            i <= n == v@.len(),
            strip_start_quotes(v@) == strip_start_quotes(v@.subrange(i as int, n as int)),
        decreases n - i,
    {
        proof {
            assert(v@.subrange(i as int, n as int).drop_first() =~= v@.subrange(i + 1, n as int));
        }
        i = i + 1;
    }
    proof {
        assert(v@.subrange(0, n as int) =~= v@);
    }
    let ghost t = v@.subrange(i as int, n as int);
    let mut j: usize = n;
    proof {
        assert(t.subrange(0, (j - i) as int) =~= t);
    }
    while j > i && (v[j - 1] == '"' || v[j - 1] == '\'')
        invariant
            i <= j <= n == v@.len(),
            t == v@.subrange(i as int, n as int),
            strip_end_quotes(t) == strip_end_quotes(t.subrange(0, (j - i) as int)),
        decreases j,
    {
        proof {
            assert(t.subrange(0, (j - i) as int).drop_last() =~= t.subrange(0, (j - i) - 1));
            assert(t[(j - i) - 1] == v@[j - 1]);
        }
        j = j - 1;
    }
    proof {
        assert(t.subrange(0, (j - i) as int) =~= v@.subrange(i as int, j as int));
    }
    (i, j)
}

fn replaced(v: &Vec<char>, from: char, to: char) -> (r: Vec<char>)
    ensures
        r@ == replace_char(v@, from, to),
{
    let mut r: Vec<char> = Vec::new();
    for k in 0..v.len()
        invariant
            r@ == replace_char(v@.take(k as int), from, to),
    {
        let c = v[k];
        r.push(
            if c == from {
                to
            } else {
                c
            },
        );
        proof {
            assert(replace_char(v@.take(k + 1), from, to) =~= replace_char(v@.take(k as int), from, to).push(
                if v@[k as int] == from {
                    to
                } else {
                    v@[k as int]
                },
            ));
        }
    }
    proof {
        assert(v@.take(v@.len() as int) =~= v@);
    }
    r
}

/// The characters of `v` from `start` on, without the leading characters that `seps` (both
/// separators) or only `/` names.
fn strip_leading(v: &Vec<char>, start: usize, both: bool) -> (r: Vec<char>)
    requires
        start <= v@.len(),
    ensures
        both ==> r@ == strip_start_seps(v@.subrange(start as int, v@.len() as int)),
        !both ==> r@ == strip_start_slashes(v@.subrange(start as int, v@.len() as int)),
{
    let n = v.len();
    let mut i = start;
    while i < n && (v[i] == '/' || (both && v[i] == '\\'))
        invariant
            start <= i <= n == v@.len(),
            both ==> strip_start_seps(v@.subrange(start as int, n as int)) == strip_start_seps(
                v@.subrange(i as int, n as int),
            ),
            !both ==> strip_start_slashes(v@.subrange(start as int, n as int)) == strip_start_slashes(
                v@.subrange(i as int, n as int),
            ),
        decreases n - i,
    {
        proof {
            assert(v@.subrange(i as int, n as int).drop_first() =~= v@.subrange(i + 1, n as int));
        }
        i = i + 1;
    }
    crate::text::copy_range(v, i, n)
}

fn push_all(out: &mut Vec<char>, s: &Vec<char>)
    ensures
        final(out)@ == old(out)@ + s@,
{
    for k in 0..s.len()
        invariant
            out@ == old(out)@ + s@.take(k as int),
    {
        out.push(s[k]);
        proof {
            assert(s@.take(k + 1) =~= s@.take(k as int).push(s@[k as int]));
        }
    }
    proof {
        assert(s@.take(s@.len() as int) =~= s@);
    }
}

impl AppSettingsOps {
    /// The account folder as written (trimmed of whitespace and quotes), the same folder with
    /// the other separator, and, for a folder with a drive letter, its Linux subsystem path;
    /// nothing for a blank folder.
    pub fn replay_root_texts(raw: &str) -> (r: Option<(String, String, Option<String>)>)
        requires
            root_text_readable(raw@),
        ensures
            root_text(raw@).len() == 0 ==> r is None,
            root_text(raw@).len() > 0 ==> (r matches Some((p, s, w)) && p@ == root_text(raw@) && s@ == swapped_root(
                root_text(raw@),
            ) && (has_drive_prefix(root_text(raw@)) ==> (w matches Some(x) && x@ == wsl_root(root_text(raw@))))
                && (!has_drive_prefix(root_text(raw@)) ==> w is None)),
    {
        let tr = trimmed_chars(raw);
        let (a, b) = strip_quote_bounds(&tr);
        let t = crate::text::copy_range(&tr, a, b);
        if t.len() == 0 {
            return None;
        }
        let swapped = if has_char_exec(&t, '\\') {
            replaced(&t, '\\', '/')
        } else {
            replaced(&t, '/', '\\')
        };
        let wsl = if t.len() >= 2 && t[1] == ':' {
            let skip: usize = if (t[0] as u32) < 0x80 {
                2
            } else {
                1
            };
            let rest = strip_leading(&t, skip, true);
            let slashed = replaced(&rest, '\\', '/');
            let tail = strip_leading(&slashed, 0, false);
            proof {
                assert(slashed@.subrange(0, slashed@.len() as int) =~= slashed@);
            }
            let mut out = chars_of("/mnt/");
            out.push(to_ascii_lower_char(t[0]));
            out.push('/');
            push_all(&mut out, &tail);
            proof {
                reveal_strlit("/mnt/");
                reveal_strlit("/");
                assert(out@ =~= wsl_root(t@));
            }
            Some(string_from_chars(&out))
        } else {
            None
        };
        Some((string_from_chars(&t), string_from_chars(&swapped), wsl))
    }

    /// The folders where replays may be, in the order to try them, given whether the platform
    /// sees another path in the swapped folder (`swapped_is_other`) and in the Linux subsystem
    /// folder (`wsl_is_other`): the account folder as written, then the swapped one when it is
    /// another path, then the Linux subsystem one when the folder has a drive letter and that
    /// is another path. The same text is never another path.
    pub fn replay_root_candidates_from(raw: &str, swapped_is_other: bool, wsl_is_other: bool) -> (r: Vec<String>)
        requires
            root_text_readable(raw@),
        ensures
            root_text(raw@).len() == 0 ==> r@.len() == 0,
            root_text(raw@).len() > 0 ==> r@.map_values(|s: String| s@) == candidates_spec(
                root_text(raw@),
                swapped_is_other && swapped_root(root_text(raw@)) != root_text(raw@),
                wsl_is_other && has_drive_prefix(root_text(raw@)) && wsl_root(root_text(raw@)) != root_text(raw@),
            ),
    {
        let mut r: Vec<String> = Vec::new();
        match Self::replay_root_texts(raw) {
            None => r,
            Some((primary, swapped, wsl)) => {
                let ghost t = root_text(raw@);
                let with_swapped = swapped_is_other && !crate::text::str_eq(swapped.as_str(), primary.as_str());
                let with_wsl = match &wsl {
                    Some(w) => wsl_is_other && !crate::text::str_eq(w.as_str(), primary.as_str()),
                    None => false,
                };
                r.push(primary.clone());
                if with_swapped {
                    r.push(swapped);
                }
                match wsl {
                    Some(w) => {
                        if with_wsl {
                            r.push(w);
                        }
                    },
                    None => {},
                }
                proof {
                    assert(r@.map_values(|s: String| s@) =~= candidates_spec(t, with_swapped, with_wsl));
                }
                r
            },
        }
    }

    /// The folders where replays may be (see [`Self::replay_root_candidates_from`]), with the
    /// platform's own path comparison deciding whether the swapped and the Linux subsystem
    /// folders are other paths than the account folder.
    pub fn build_replay_root_candidates(raw: &str) -> (r: Vec<String>)
        requires
            root_text_readable(raw@),
        ensures
            root_text(raw@).len() == 0 ==> r@.len() == 0,
            root_text(raw@).len() > 0 ==> exists|swapped_is_other: bool, wsl_is_other: bool|
                #![trigger candidates_spec(root_text(raw@), swapped_is_other, wsl_is_other)]
                r@.map_values(|s: String| s@) == candidates_spec(
                    root_text(raw@),
                    swapped_is_other && swapped_root(root_text(raw@)) != root_text(raw@),
                    wsl_is_other && has_drive_prefix(root_text(raw@)) && wsl_root(root_text(raw@)) != root_text(raw@),
                ),
    {
        match Self::replay_root_texts(raw) {
            None => Vec::new(),
            Some((primary, swapped, wsl)) => {
                let swapped_is_other = !paths_equal(swapped.as_str(), primary.as_str());
                let wsl_is_other = match &wsl {
                    Some(w) => !paths_equal(w.as_str(), primary.as_str()),
                    None => false,
                };
                let r = Self::replay_root_candidates_from(raw, swapped_is_other, wsl_is_other);
                proof {
                    let t = root_text(raw@);
                    let a = swapped_is_other && swapped_root(t) != t;
                    let b = wsl_is_other && has_drive_prefix(t) && wsl_root(t) != t;
                    assert(r@.map_values(|s: String| s@) == candidates_spec(t, a, b));
                }
                r
            },
        }
    }
}

} // verus!
