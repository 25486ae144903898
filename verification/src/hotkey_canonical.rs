use vstd::prelude::*;

use crate::overlay_info::{is_modifier_token, 
    hotkey_token_alias, is_blocked_hotkey_token, join_plus, normalize_hotkey_spec, plus_tokens, plus_tokens_from,
    without_ws,
};
use crate::text::{ascii_lower, is_ws, lemma_trim_plain, lower_seq, trim_seq};

verus! {

/// A character a canonical shortcut may hold: no whitespace and no ASCII capital.
pub open spec fn plain_char(c: char) -> bool {
    !is_ws(c) && ascii_lower(c) == c
}

/// Every character of `s` is plain.
pub open spec fn plain_text(s: Seq<char>) -> bool {
    forall|i: int| 0 <= i < s.len() ==> plain_char(#[trigger] s[i])
}

/// A token of a canonical shortcut: not empty, plain, without `+`.
pub open spec fn plain_token(t: Seq<char>) -> bool {
    t.len() > 0 && plain_text(t) && forall|i: int| 0 <= i < t.len() ==> #[trigger] t[i] != '+'
}

pub open spec fn plain_tokens(ts: Seq<Seq<char>>) -> bool {
    forall|i: int| 0 <= i < ts.len() ==> plain_token(#[trigger] ts[i])
}

proof fn lemma_without_ws_plain(s: Seq<char>)
    ensures
        forall|i: int| 0 <= i < without_ws(s).len() ==> !is_ws(#[trigger] without_ws(s)[i]),
        plain_text(s) ==> without_ws(s) == s,
    decreases s.len(),
{
    if s.len() > 0 {
        lemma_without_ws_plain(s.drop_last());
        let prev = without_ws(s.drop_last());
        if is_ws(s.last()) {
            assert(without_ws(s) == prev);
        } else {
            assert(without_ws(s) == prev.push(s.last()));
            assert forall|i: int| 0 <= i < without_ws(s).len() implies !is_ws(#[trigger] without_ws(s)[i]) by {
                if i < prev.len() {
                    assert(without_ws(s)[i] == prev[i]);
                }
            }
        }
        if plain_text(s) {
            assert(plain_text(s.drop_last())) by {
                assert forall|i: int| 0 <= i < s.drop_last().len() implies plain_char(#[trigger] s.drop_last()[i]) by {
                    assert(s.drop_last()[i] == s[i]);
                }
            }
            assert(!is_ws(s[s.len() - 1]));
            assert(s.drop_last().push(s.last()) =~= s);
        }
    }
}

proof fn lemma_ascii_lower_plain(c: char)
    ensures
        ascii_lower(ascii_lower(c)) == ascii_lower(c),
        is_ws(ascii_lower(c)) == is_ws(c),
{
}

proof fn lemma_lower_plain(s: Seq<char>)
    requires
        forall|i: int| 0 <= i < s.len() ==> !is_ws(#[trigger] s[i]),
    ensures
        plain_text(lower_seq(s)),
        plain_text(s) ==> lower_seq(s) == s,
{
    assert forall|i: int| 0 <= i < lower_seq(s).len() implies plain_char(#[trigger] lower_seq(s)[i]) by {
        lemma_ascii_lower_plain(s[i]);
    }
    if plain_text(s) {
        assert(lower_seq(s) =~= s);
    }
}

/// The tokens read from plain text after a plain start without `+` are plain tokens.
proof fn lemma_plus_tokens_plain(s: Seq<char>, cur: Seq<char>)
    requires
        plain_text(s),
        plain_text(cur),
        forall|i: int| 0 <= i < cur.len() ==> #[trigger] cur[i] != '+',
    ensures
        plain_tokens(plus_tokens_from(s, cur)),
    decreases s.len(),
{
    if s.len() == 0 {
    } else {
        assert(plain_text(s.drop_first())) by {
            assert forall|i: int| 0 <= i < s.drop_first().len() implies plain_char(#[trigger] s.drop_first()[i]) by {
                assert(s.drop_first()[i] == s[i + 1]);
            }
        }
        if s[0] == '+' {
            lemma_plus_tokens_plain(s.drop_first(), Seq::empty());
            let head: Seq<Seq<char>> = if cur.len() > 0 {
                seq![cur]
            } else {
                Seq::empty()
            };
            let rest = plus_tokens_from(s.drop_first(), Seq::empty());
            assert forall|i: int| 0 <= i < (head + rest).len() implies plain_token(#[trigger] (head + rest)[i]) by {
                if i < head.len() {
                    assert((head + rest)[i] == cur);
                } else {
                    assert((head + rest)[i] == rest[i - head.len()]);
                }
            }
        } else {
            let next = cur.push(s[0]);
            assert(plain_text(next)) by {
                assert forall|i: int| 0 <= i < next.len() implies plain_char(#[trigger] next[i]) by {
                    if i < cur.len() {
                        assert(next[i] == cur[i]);
                    }
                }
            }
            assert forall|i: int| 0 <= i < next.len() implies #[trigger] next[i] != '+' by {
                if i < cur.len() {
                    assert(next[i] == cur[i]);
                }
            }
            lemma_plus_tokens_plain(s.drop_first(), next);
        }
    }
}

/// Text without `+` read after `cur` is one token, when there is any.
proof fn lemma_plus_tokens_one(s: Seq<char>, cur: Seq<char>)
    requires
        forall|i: int| 0 <= i < s.len() ==> #[trigger] s[i] != '+',
    ensures
        plus_tokens_from(s, cur) == (if (cur + s).len() > 0 {
            seq![cur + s]
        } else {
            Seq::<Seq<char>>::empty()
        }),
    decreases s.len(),
{
    if s.len() > 0 {
        assert forall|i: int| 0 <= i < s.drop_first().len() implies #[trigger] s.drop_first()[i] != '+' by {
            assert(s.drop_first()[i] == s[i + 1]);
        }
        lemma_plus_tokens_one(s.drop_first(), cur.push(s[0]));
        assert(cur.push(s[0]) + s.drop_first() =~= cur + s);
    } else {
        assert(cur + s =~= cur);
    }
}

/// A token without `+`, a `+` and more text split into the token and the tokens of the rest.
proof fn lemma_plus_tokens_split(a: Seq<char>, b: Seq<char>, cur: Seq<char>)
    requires
        forall|i: int| 0 <= i < a.len() ==> #[trigger] a[i] != '+',
    ensures
        plus_tokens_from(a + seq!['+'] + b, cur) == (if (cur + a).len() > 0 {
            seq![cur + a]
        } else {
            Seq::<Seq<char>>::empty()
        }) + plus_tokens_from(b, Seq::empty()),
    decreases a.len(),
{
    let s = a + seq!['+'] + b;
    if a.len() == 0 {
        assert(s[0] == '+');
        assert(s.drop_first() =~= b);
        assert(cur + a =~= cur);
    } else {
        assert(s[0] == a[0]);
        assert(s.drop_first() =~= a.drop_first() + seq!['+'] + b);
        assert forall|i: int| 0 <= i < a.drop_first().len() implies #[trigger] a.drop_first()[i] != '+' by {
            assert(a.drop_first()[i] == a[i + 1]);
        }
        lemma_plus_tokens_split(a.drop_first(), b, cur.push(a[0]));
        assert(cur.push(a[0]) + a.drop_first() =~= cur + a);
    }
}

/// Joining tokens by `+` from the front: the first, `+`, and the join of the rest.
proof fn lemma_join_plus_front(ts: Seq<Seq<char>>)
    requires
        ts.len() >= 2,
    ensures
        join_plus(ts) == ts[0] + seq!['+'] + join_plus(ts.drop_first()),
    decreases ts.len(),
{
    reveal_strlit("+");
    if ts.len() == 2 {
        assert(ts.drop_last().len() == 1);
        assert(ts.drop_first().len() == 1);
        assert(join_plus(ts.drop_first()) == ts[1]);
        assert(join_plus(ts.drop_last()) == ts[0]);
        assert("+"@ =~= seq!['+']);
    } else {
        lemma_join_plus_front(ts.drop_last());
        assert(ts.drop_last().drop_first() =~= ts.drop_first().drop_last());
        assert(ts.drop_first().last() == ts.last());
        assert(ts.drop_last()[0] == ts[0]);
        assert("+"@ =~= seq!['+']);
    }
}

/// Splitting the join of plain tokens gives the tokens back.
proof fn lemma_plus_tokens_of_join(ts: Seq<Seq<char>>)
    requires
        plain_tokens(ts),
    ensures
        plus_tokens(join_plus(ts)) == ts,
    decreases ts.len(),
{
    if ts.len() == 0 {
        assert(plus_tokens(join_plus(ts)) =~= ts);
    } else if ts.len() == 1 {
        assert(plain_token(ts[0]));
        lemma_plus_tokens_one(ts[0], Seq::empty());
        assert(Seq::<char>::empty() + ts[0] =~= ts[0]);
        assert(plus_tokens(join_plus(ts)) =~= ts);
    } else {
        lemma_join_plus_front(ts);
        assert(plain_token(ts[0]));
        assert(plain_tokens(ts.drop_first())) by {
            assert forall|i: int| 0 <= i < ts.drop_first().len() implies plain_token(#[trigger] ts.drop_first()[i]) by {
                assert(ts.drop_first()[i] == ts[i + 1]);
            }
        }
        lemma_plus_tokens_split(ts[0], join_plus(ts.drop_first()), Seq::empty());
        lemma_plus_tokens_of_join(ts.drop_first());
        assert(Seq::<char>::empty() + ts[0] =~= ts[0]);
        assert(seq![ts[0]] + ts.drop_first() =~= ts);
    }
}

/// The join of plain tokens is plain text, and not empty when there is a token.
proof fn lemma_join_plain(ts: Seq<Seq<char>>)
    requires
        plain_tokens(ts),
    ensures
        plain_text(join_plus(ts)),
        ts.len() > 0 ==> join_plus(ts).len() > 0,
        ts.len() > 0 ==> join_plus(ts)[0] == ts[0][0],
        ts.len() > 0 ==> join_plus(ts).last() == ts.last().last(),
    decreases ts.len(),
{
    reveal_strlit("+");
    if ts.len() == 1 {
        assert(plain_token(ts[0]));
    } else if ts.len() >= 2 {
        lemma_join_plain(ts.drop_last());
        assert(plain_tokens(ts.drop_last())) by {
            assert forall|i: int| 0 <= i < ts.drop_last().len() implies plain_token(#[trigger] ts.drop_last()[i]) by {
                assert(ts.drop_last()[i] == ts[i]);
            }
        }
        let a = join_plus(ts.drop_last());
        let j = a + "+"@ + ts.last();
        assert(plain_token(ts.last()));
        assert forall|i: int| 0 <= i < j.len() implies plain_char(#[trigger] j[i]) by {
            if i < a.len() {
                assert(j[i] == a[i]);
            } else if i == a.len() {
                assert(j[i] == '+');
            } else {
                assert(j[i] == ts.last()[i - a.len() - 1]);
            }
        }
        assert(ts.drop_last()[0] == ts[0]);
    }
}


/// A canonical spelling: a plain token, not blocked, spelled canonically as itself.
pub open spec fn alias_fixed(c: Seq<char>) -> bool {
    plain_token(c) && !is_blocked_hotkey_token(c) && hotkey_token_alias(c) == c
}

proof fn lemma_word_lengths()
    ensures
        "control"@.len() == 7,
        "ctrl"@.len() == 4,
        "shift"@.len() == 5,
        "alt"@.len() == 3,
        "meta"@.len() == 4,
        "super"@.len() == 5,
        "cmd"@.len() == 3,
        "command"@.len() == 7,
        "win"@.len() == 3,
        "windows"@.len() == 7,
        "commandorcontrol"@.len() == 16,
        "commandorctrl"@.len() == 13,
        "cmdorcontrol"@.len() == 12,
        "cmdorctrl"@.len() == 9,
        "plus"@.len() == 4,
        "asterisk"@.len() == 8,
        "backspace"@.len() == 9,
        "delete"@.len() == 6,
{
    reveal_strlit("control");
    reveal_strlit("ctrl");
    reveal_strlit("shift");
    reveal_strlit("alt");
    reveal_strlit("meta");
    reveal_strlit("super");
    reveal_strlit("cmd");
    reveal_strlit("command");
    reveal_strlit("win");
    reveal_strlit("windows");
    reveal_strlit("commandorcontrol");
    reveal_strlit("commandorctrl");
    reveal_strlit("cmdorcontrol");
    reveal_strlit("cmdorctrl");
    reveal_strlit("plus");
    reveal_strlit("asterisk");
    reveal_strlit("backspace");
    reveal_strlit("delete");
}

proof fn lemma_word_outputs_fixed()
    ensures
        alias_fixed("control"@),
        alias_fixed("shift"@),
        alias_fixed("alt"@),
        alias_fixed("super"@),
{
    reveal_strlit("control");
    reveal_strlit("ctrl");
    reveal_strlit("shift");
    reveal_strlit("alt");
    reveal_strlit("meta");
    reveal_strlit("super");
    reveal_strlit("cmd");
    reveal_strlit("command");
    reveal_strlit("win");
    reveal_strlit("windows");
    reveal_strlit("commandorcontrol");
    reveal_strlit("commandorctrl");
    reveal_strlit("cmdorcontrol");
    reveal_strlit("cmdorctrl");
    reveal_strlit("plus");
    reveal_strlit("asterisk");
    reveal_strlit("backspace");
    reveal_strlit("delete");
    reveal_strlit("!");
    reveal_strlit("@");
    reveal_strlit("#");
    reveal_strlit("$");
    reveal_strlit("%");
    reveal_strlit("^");
    reveal_strlit("&");
    reveal_strlit("*");
    reveal_strlit("(");
    reveal_strlit(")");
    reveal_strlit("_");
    reveal_strlit("+");
    reveal_strlit("{");
    reveal_strlit("}");
    reveal_strlit("|");
    reveal_strlit(":");
    reveal_strlit("\"");
    reveal_strlit("<");
    reveal_strlit(">");
    reveal_strlit("?");
    reveal_strlit("~");
    assert(plain_token("control"@));
    assert(plain_token("shift"@));
    assert(plain_token("alt"@));
    assert(plain_token("super"@));
}

/// The canonical spelling of a one-character token, by its character.
pub open spec fn single_alias(ch: char) -> Seq<char> {
    if ch == '!' {
        "1"@
    } else if ch == '@' {
        "2"@
    } else if ch == '#' {
        "3"@
    } else if ch == '$' {
        "4"@
    } else if ch == '%' {
        "5"@
    } else if ch == '^' {
        "6"@
    } else if ch == '&' {
        "7"@
    } else if ch == '*' {
        "8"@
    } else if ch == '(' {
        "9"@
    } else if ch == ')' {
        "0"@
    } else if ch == '_' {
        "-"@
    } else if ch == '+' {
        "="@
    } else if ch == '{' {
        "["@
    } else if ch == '}' {
        "]"@
    } else if ch == '|' {
        "\\"@
    } else if ch == ':' {
        ";"@
    } else if ch == '"' {
        "'"@
    } else if ch == '<' {
        ","@
    } else if ch == '>' {
        "."@
    } else if ch == '?' {
        "/"@
    } else if ch == '~' {
        "`"@
    } else {
        seq![ch]
    }
}

proof fn lemma_single_literals()
    ensures
        "!"@ == seq!['!'],
        "@"@ == seq!['@'],
        "#"@ == seq!['#'],
        "$"@ == seq!['$'],
        "%"@ == seq!['%'],
        "^"@ == seq!['^'],
        "&"@ == seq!['&'],
        "*"@ == seq!['*'],
        "("@ == seq!['('],
        ")"@ == seq![')'],
        "_"@ == seq!['_'],
        "+"@ == seq!['+'],
        "{"@ == seq!['{'],
        "}"@ == seq!['}'],
        "|"@ == seq!['|'],
        ":"@ == seq![':'],
        "\""@ == seq!['"'],
        "<"@ == seq!['<'],
        ">"@ == seq!['>'],
        "?"@ == seq!['?'],
        "~"@ == seq!['~'],
        "1"@ == seq!['1'],
        "2"@ == seq!['2'],
        "3"@ == seq!['3'],
        "4"@ == seq!['4'],
        "5"@ == seq!['5'],
        "6"@ == seq!['6'],
        "7"@ == seq!['7'],
        "8"@ == seq!['8'],
        "9"@ == seq!['9'],
        "0"@ == seq!['0'],
        "-"@ == seq!['-'],
        "="@ == seq!['='],
        "["@ == seq!['['],
        "]"@ == seq![']'],
        "\\"@ == seq!['\\'],
        ";"@ == seq![';'],
        "'"@ == seq!['\''],
        ","@ == seq![','],
        "."@ == seq!['.'],
        "/"@ == seq!['/'],
        "`"@ == seq!['`'],
{
    reveal_strlit("!");
    assert("!"@ =~= seq!['!']);
    reveal_strlit("@");
    assert("@"@ =~= seq!['@']);
    reveal_strlit("#");
    assert("#"@ =~= seq!['#']);
    reveal_strlit("$");
    assert("$"@ =~= seq!['$']);
    reveal_strlit("%");
    assert("%"@ =~= seq!['%']);
    reveal_strlit("^");
    assert("^"@ =~= seq!['^']);
    reveal_strlit("&");
    assert("&"@ =~= seq!['&']);
    reveal_strlit("*");
    assert("*"@ =~= seq!['*']);
    reveal_strlit("(");
    assert("("@ =~= seq!['(']);
    reveal_strlit(")");
    assert(")"@ =~= seq![')']);
    reveal_strlit("_");
    assert("_"@ =~= seq!['_']);
    reveal_strlit("+");
    assert("+"@ =~= seq!['+']);
    reveal_strlit("{");
    assert("{"@ =~= seq!['{']);
    reveal_strlit("}");
    assert("}"@ =~= seq!['}']);
    reveal_strlit("|");
    assert("|"@ =~= seq!['|']);
    reveal_strlit(":");
    assert(":"@ =~= seq![':']);
    reveal_strlit("\"");
    assert("\""@ =~= seq!['"']);
    reveal_strlit("<");
    assert("<"@ =~= seq!['<']);
    reveal_strlit(">");
    assert(">"@ =~= seq!['>']);
    reveal_strlit("?");
    assert("?"@ =~= seq!['?']);
    reveal_strlit("~");
    assert("~"@ =~= seq!['~']);
    reveal_strlit("1");
    assert("1"@ =~= seq!['1']);
    reveal_strlit("2");
    assert("2"@ =~= seq!['2']);
    reveal_strlit("3");
    assert("3"@ =~= seq!['3']);
    reveal_strlit("4");
    assert("4"@ =~= seq!['4']);
    reveal_strlit("5");
    assert("5"@ =~= seq!['5']);
    reveal_strlit("6");
    assert("6"@ =~= seq!['6']);
    reveal_strlit("7");
    assert("7"@ =~= seq!['7']);
    reveal_strlit("8");
    assert("8"@ =~= seq!['8']);
    reveal_strlit("9");
    assert("9"@ =~= seq!['9']);
    reveal_strlit("0");
    assert("0"@ =~= seq!['0']);
    reveal_strlit("-");
    assert("-"@ =~= seq!['-']);
    reveal_strlit("=");
    assert("="@ =~= seq!['=']);
    reveal_strlit("[");
    assert("["@ =~= seq!['[']);
    reveal_strlit("]");
    assert("]"@ =~= seq![']']);
    reveal_strlit("\\");
    assert("\\"@ =~= seq!['\\']);
    reveal_strlit(";");
    assert(";"@ =~= seq![';']);
    reveal_strlit("'");
    assert("'"@ =~= seq!['\'']);
    reveal_strlit(",");
    assert(","@ =~= seq![',']);
    reveal_strlit(".");
    assert("."@ =~= seq!['.']);
    reveal_strlit("/");
    assert("/"@ =~= seq!['/']);
    reveal_strlit("`");
    assert("`"@ =~= seq!['`']);
}

/// On one-character tokens the canonical spelling goes by the character.
proof fn lemma_alias_single(t: Seq<char>)
    requires
        t.len() == 1,
    ensures
        hotkey_token_alias(t) == single_alias(t[0]),
{
    lemma_word_lengths();
    lemma_single_literals();
    assert forall|c: char| #[trigger] seq![c] == t <==> t[0] == c by {
        if t[0] == c {
            assert(t =~= seq![c]);
        }
        if seq![c] == t {
            assert(seq![c][0] == c);
        }
    }
}

proof fn lemma_alias_outputs_fixed()
    ensures
        alias_fixed("control"@),
        alias_fixed("shift"@),
        alias_fixed("alt"@),
        alias_fixed("super"@),
        alias_fixed("1"@),
        alias_fixed("2"@),
        alias_fixed("3"@),
        alias_fixed("4"@),
        alias_fixed("5"@),
        alias_fixed("6"@),
        alias_fixed("7"@),
        alias_fixed("8"@),
        alias_fixed("9"@),
        alias_fixed("0"@),
        alias_fixed("-"@),
        alias_fixed("="@),
        alias_fixed("["@),
        alias_fixed("]"@),
        alias_fixed("\\"@),
        alias_fixed(";"@),
        alias_fixed("'"@),
        alias_fixed(","@),
        alias_fixed("."@),
        alias_fixed("/"@),
        alias_fixed("`"@),
{
    lemma_word_outputs_fixed();
    lemma_word_lengths();
    lemma_single_literals();
    lemma_alias_single("1"@);
    lemma_alias_single("2"@);
    lemma_alias_single("3"@);
    lemma_alias_single("4"@);
    lemma_alias_single("5"@);
    lemma_alias_single("6"@);
    lemma_alias_single("7"@);
    lemma_alias_single("8"@);
    lemma_alias_single("9"@);
    lemma_alias_single("0"@);
    lemma_alias_single("-"@);
    lemma_alias_single("="@);
    lemma_alias_single("["@);
    lemma_alias_single("]"@);
    lemma_alias_single("\\"@);
    lemma_alias_single(";"@);
    lemma_alias_single("'"@);
    lemma_alias_single(","@);
    lemma_alias_single("."@);
    lemma_alias_single("/"@);
    lemma_alias_single("`"@);
}

/// The canonical spelling of a plain token that is not blocked is a plain token that is not
/// blocked, and its own canonical spelling.
proof fn lemma_alias_plain(t: Seq<char>)
    requires
        plain_token(t),
        !is_blocked_hotkey_token(t),
    ensures
        plain_token(hotkey_token_alias(t)),
        !is_blocked_hotkey_token(hotkey_token_alias(t)),
        hotkey_token_alias(hotkey_token_alias(t)) == hotkey_token_alias(t),
{
    lemma_alias_outputs_fixed();
}

/// A canonical shortcut is its own canonical shortcut: normalizing the result of a
/// normalization gives that shortcut again, and it holds no whitespace and no ASCII capital.
pub proof fn law_normalized_hotkey_is_canonical(raw: Seq<char>)
    requires
        normalize_hotkey_spec(raw) is Some,
    ensures
        normalize_hotkey_spec(normalize_hotkey_spec(raw)->0) == normalize_hotkey_spec(raw),
        normalize_hotkey_spec(raw)->0.len() > 0,
        plain_text(normalize_hotkey_spec(raw)->0),
{
    let t = trim_seq(raw);
    let w = without_ws(t);
    lemma_without_ws_plain(t);
    lemma_lower_plain(w);
    let l = lower_seq(w);
    let tokens = plus_tokens(l);
    lemma_plus_tokens_plain(l, Seq::empty());
    let f = |x: Seq<char>| hotkey_token_alias(x);
    let mapped = tokens.map_values(f);
    assert forall|i: int| 0 <= i < mapped.len() implies plain_token(#[trigger] mapped[i]) && !is_blocked_hotkey_token(
        mapped[i],
    ) && hotkey_token_alias(mapped[i]) == mapped[i] by {
        assert(plain_token(tokens[i]));
        assert(!is_blocked_hotkey_token(tokens[i]));
        lemma_alias_plain(tokens[i]);
    }
    let s = join_plus(mapped);
    assert(normalize_hotkey_spec(raw) == Some(s));
    lemma_join_plain(mapped);
    assert(mapped.len() > 0);
    assert(plain_token(mapped[0]));
    assert(plain_token(mapped.last()));
    lemma_trim_plain(s);
    lemma_without_ws_plain(s);
    assert(forall|i: int| 0 <= i < s.len() ==> !is_ws(#[trigger] s[i]));
    lemma_lower_plain(s);
    lemma_plus_tokens_of_join(mapped);
    assert(plus_tokens(lower_seq(without_ws(trim_seq(s)))) == mapped);
    assert(mapped.map_values(f) =~= mapped);
    assert(!(exists|i: int| 0 <= i < mapped.len() && is_blocked_hotkey_token(#[trigger] mapped[i])));
    let k = choose|k: int| 0 <= k < tokens.len() && !is_modifier_token(hotkey_token_alias(#[trigger] tokens[k]));
    assert(mapped[k] == hotkey_token_alias(tokens[k]));
    assert(!is_modifier_token(hotkey_token_alias(mapped[k])));
}

proof fn lemma_modifier_aliases(t: Seq<char>)
    ensures
        (t == "meta"@ || t == "super"@ || t == "cmd"@ || t == "command"@ || t == "win"@ || t == "windows"@)
            ==> hotkey_token_alias(t) == "super"@,
        (t == "ctrl"@ || t == "control"@ || t == "commandorcontrol"@ || t == "commandorctrl"@ || t
            == "cmdorcontrol"@ || t == "cmdorctrl"@) ==> hotkey_token_alias(t) == "control"@,
        t == "shift"@ ==> hotkey_token_alias(t) == "shift"@,
        t == "alt"@ ==> hotkey_token_alias(t) == "alt"@,
{
    reveal_strlit("control");
    reveal_strlit("ctrl");
    reveal_strlit("shift");
    reveal_strlit("alt");
    reveal_strlit("meta");
    reveal_strlit("super");
    reveal_strlit("cmd");
    reveal_strlit("command");
    reveal_strlit("win");
    reveal_strlit("windows");
    reveal_strlit("commandorcontrol");
    reveal_strlit("commandorctrl");
    reveal_strlit("cmdorcontrol");
    reveal_strlit("cmdorctrl");
    lemma_word_lengths();
    if t == "meta"@ {
        assert("meta"@[0] != "ctrl"@[0]);
    } else if t == "super"@ {
        assert("super"@[1] != "shift"@[1]);
    } else if t == "cmd"@ {
        assert("cmd"@[0] != "alt"@[0]);
    } else if t == "command"@ {
        assert("command"@[2] != "control"@[2]);
    } else if t == "win"@ {
        assert("win"@[0] != "alt"@[0] && "win"@[0] != "cmd"@[0]);
    } else if t == "windows"@ {
        assert("windows"@[0] != "control"@[0] && "windows"@[0] != "command"@[0]);
    } else if t == "commandorcontrol"@ || t == "commandorctrl"@ || t == "cmdorcontrol"@ || t == "cmdorctrl"@ {
        assert(t.len() >= 9);
    }
}

/// A canonical shortcut keeps the keys of the configured text, in order, and spells each
/// modifier one way: `meta`, `super`, `cmd`, `command`, `win` and `windows` all become
/// `super`; `ctrl`, `control` and the command-or-control forms become `control`; `shift`
/// and `alt` stay as they are.
pub proof fn law_modifier_spellings(raw: Seq<char>, i: int)
    requires
        normalize_hotkey_spec(raw) is Some,
        0 <= i < plus_tokens(lower_seq(without_ws(trim_seq(raw)))).len(),
    ensures
        ({
            let input = plus_tokens(lower_seq(without_ws(trim_seq(raw))));
            let out = plus_tokens(normalize_hotkey_spec(raw)->0);
            &&& out.len() == input.len()
            &&& (input[i] == "meta"@ || input[i] == "super"@ || input[i] == "cmd"@ || input[i] == "command"@
                || input[i] == "win"@ || input[i] == "windows"@) ==> out[i] == "super"@
            &&& (input[i] == "ctrl"@ || input[i] == "control"@ || input[i] == "commandorcontrol"@ || input[i]
                == "commandorctrl"@ || input[i] == "cmdorcontrol"@ || input[i] == "cmdorctrl"@) ==> out[i]
                == "control"@
            &&& input[i] == "shift"@ ==> out[i] == "shift"@
            &&& input[i] == "alt"@ ==> out[i] == "alt"@
        }),
{
    let t = trim_seq(raw);
    let w = without_ws(t);
    lemma_without_ws_plain(t);
    lemma_lower_plain(w);
    let l = lower_seq(w);
    let tokens = plus_tokens(l);
    lemma_plus_tokens_plain(l, Seq::empty());
    let f = |x: Seq<char>| hotkey_token_alias(x);
    let mapped = tokens.map_values(f);
    assert forall|k: int| 0 <= k < mapped.len() implies plain_token(#[trigger] mapped[k]) by {
        assert(plain_token(tokens[k]));
        lemma_alias_plain(tokens[k]);
    }
    assert(normalize_hotkey_spec(raw) == Some(join_plus(mapped)));
    lemma_plus_tokens_of_join(mapped);
    lemma_modifier_aliases(tokens[i]);
}

} // verus!
