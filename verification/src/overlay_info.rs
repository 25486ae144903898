use vstd::prelude::*;

use crate::app_settings::AppSettings;
use crate::shared_types::LocalizedLabels;
use crate::text::{
    chars_eq_str, chars_of, copy_range, decimal_seq, is_whitespace, is_ws, lower_chars, lower_seq,
    push_decimal, sanitize_replay_text, sanitize_spec, str_eq, string_from_chars, trim, trim_seq,
    trimmed_chars,
};
use crate::text_map::TextMap;

verus! {

/// The hotkey settings that have a default, and the default.
pub const OVERLAY_HOTKEY_DEFAULTS: [(&'static str, &'static str); 6] = [
    ("hotkey_show/hide", "Ctrl+Shift+*"),
    ("hotkey_show", ""),
    ("hotkey_hide", ""),
    ("hotkey_newer", "Ctrl+Alt+/"),
    ("hotkey_older", "Ctrl+Alt+*"),
    ("hotkey_winrates", "Ctrl+Alt+-"),
];

/// Each hotkey setting and the overlay action that it triggers.
pub const OVERLAY_HOTKEY_BINDINGS: [(&'static str, &'static str); 7] = [
    ("hotkey_show/hide", "overlay_show_hide"),
    ("hotkey_show", "overlay_show"),
    ("hotkey_hide", "overlay_hide"),
    ("hotkey_newer", "overlay_newer"),
    ("hotkey_older", "overlay_older"),
    ("hotkey_winrates", "overlay_player_stats"),
    ("performance_hotkey", "performance_show_hide"),
];

pub struct OverlayInfoOps;

/// How the app starts: minimized or not, into the tray or not, with updates or not.
#[derive(Clone, Copy)]
pub struct RuntimeFlags {
    start_minimized: bool,
    minimize_to_tray: bool,
    auto_update: bool,
}

impl RuntimeFlags {
    pub closed spec fn flags_view(self) -> (bool, bool, bool) {
        (self.start_minimized, self.minimize_to_tray, self.auto_update)
    }

    pub fn new(start_minimized: bool, minimize_to_tray: bool, auto_update: bool) -> (r: Self)
        ensures
            r.flags_view() == (start_minimized, minimize_to_tray, auto_update),
    {
        Self { start_minimized, minimize_to_tray, auto_update }
    }

    pub fn start_minimized(&self) -> (r: bool)
        ensures
            r == self.flags_view().0,
    {
        self.start_minimized
    }

    pub fn minimize_to_tray(&self) -> (r: bool)
        ensures
            r == self.flags_view().1,
    {
        self.minimize_to_tray
    }

    pub fn auto_update(&self) -> (r: bool)
        ensures
            r == self.flags_view().2,
    {
        self.auto_update
    }
}

/// A hotkey setting resolved to a shortcut: the setting, its action, the shortcut as
/// configured and its canonical spelling.
#[derive(Clone)]
pub struct ResolvedHotkeyBinding {
    path: &'static str,
    action: &'static str,
    shortcut: String,
    canonical: String,
}

impl ResolvedHotkeyBinding {
    pub closed spec fn path_view(self) -> Seq<char> {
        self.path@
    }

    pub closed spec fn action_view(self) -> Seq<char> {
        self.action@
    }

    pub closed spec fn shortcut_view(self) -> Seq<char> {
        self.shortcut@
    }

    pub closed spec fn canonical_view(self) -> Seq<char> {
        self.canonical@
    }

    /// Path, action, shortcut and canonical spelling, in that order.
    pub open spec fn parts(self) -> (Seq<char>, Seq<char>, Seq<char>, Seq<char>) {
        (self.path_view(), self.action_view(), self.shortcut_view(), self.canonical_view())
    }

    pub fn new(path: &'static str, action: &'static str, shortcut: String, canonical: String) -> (r: Self)
        ensures
            r.path_view() == path@,
            r.action_view() == action@,
            r.shortcut_view() == shortcut@,
            r.canonical_view() == canonical@,
    {
        Self { path, action, shortcut, canonical }
    }

    pub fn path(&self) -> (r: &'static str)
        ensures
            r@ == self.path_view(),
    {
        self.path
    }

    pub fn action(&self) -> (r: &'static str)
        ensures
            r@ == self.action_view(),
    {
        self.action
    }

    pub fn shortcut(&self) -> (r: &str)
        ensures
            r@ == self.shortcut_view(),
    {
        self.shortcut.as_str()
    }

    pub fn canonical(&self) -> (r: &str)
        ensures
            r@ == self.canonical_view(),
    {
        self.canonical.as_str()
    }

    /// A copy of this binding.
    pub fn duplicate(&self) -> (r: Self)
        ensures
            r.path_view() == self.path_view(),
            r.action_view() == self.action_view(),
            r.shortcut_view() == self.shortcut_view(),
            r.canonical_view() == self.canonical_view(),
    {
        Self {
            path: self.path,
            action: self.action,
            shortcut: self.shortcut.clone(),
            canonical: self.canonical.clone(),
        }
    }
}

/// The characters of `s` that are not whitespace.
pub open spec fn without_ws(s: Seq<char>) -> Seq<char>
    decreases s.len(),
{
    if s.len() == 0 {
        s
    } else if is_ws(s.last()) {
        without_ws(s.drop_last())
    } else {
        without_ws(s.drop_last()).push(s.last())
    }
}

/// The non-empty `+`-separated tokens of `s`, with `cur` the token read so far.
pub open spec fn plus_tokens_from(s: Seq<char>, cur: Seq<char>) -> Seq<Seq<char>>
    decreases s.len(),
{
    if s.len() == 0 {
        if cur.len() > 0 {
            seq![cur]
        } else {
            Seq::empty()
        }
    } else if s[0] == '+' {
        (if cur.len() > 0 {
            seq![cur]
        } else {
            Seq::empty()
        }) + plus_tokens_from(s.drop_first(), Seq::empty())
    } else {
        plus_tokens_from(s.drop_first(), cur.push(s[0]))
    }
}

/// The non-empty `+`-separated tokens of `s`.
pub open spec fn plus_tokens(s: Seq<char>) -> Seq<Seq<char>> {
    plus_tokens_from(s, Seq::empty())
}

/// Tokens joined by `+`.
pub open spec fn join_plus(ts: Seq<Seq<char>>) -> Seq<char>
    decreases ts.len(),
{
    if ts.len() == 0 {
        Seq::empty()
    } else if ts.len() == 1 {
        ts[0]
    } else {
        join_plus(ts.drop_last()) + "+"@ + ts.last()
    }
}

/// Tokens that can not be bound to a global shortcut.
pub open spec fn is_blocked_hotkey_token(t: Seq<char>) -> bool {
    t == "backspace"@ || t == "delete"@
}

/// Canonical tokens that name a modifier rather than a key.
pub open spec fn is_modifier_token(t: Seq<char>) -> bool {
    t == "control"@ || t == "shift"@ || t == "alt"@ || t == "super"@
}

/// The canonical shortcut for a configured hotkey text: whitespace removed, lower-cased,
/// split at `+`, each token spelled canonically and joined by `+`; nothing for an empty text,
/// for one with no key part (no token, or modifiers only), or for one that uses Backspace or
/// Delete.
pub open spec fn normalize_hotkey_spec(raw: Seq<char>) -> Option<Seq<char>> {
    let t = trim_seq(raw);
    let tokens = plus_tokens(lower_seq(without_ws(t)));
    if t.len() == 0 {
        None
    } else if tokens.len() == 0 {
        None
    } else if exists|i: int| 0 <= i < tokens.len() && is_blocked_hotkey_token(#[trigger] tokens[i]) {
        None
    } else if forall|i: int| 0 <= i < tokens.len() ==> is_modifier_token(hotkey_token_alias(#[trigger] tokens[i])) {
        None
    } else {
        Some(join_plus(tokens.map_values(|x: Seq<char>| hotkey_token_alias(x))))
    }
}

/// The canonical spelling of one (lower-case) shortcut token.
pub open spec fn hotkey_token_alias(t: Seq<char>) -> Seq<char> {
    if t == "control"@ || t == "ctrl"@ {
        "control"@
    } else if t == "shift"@ {
        "shift"@
    } else if t == "alt"@ {
        "alt"@
    } else if t == "meta"@ || t == "super"@ || t == "cmd"@ || t == "command"@ || t == "win"@ || t == "windows"@ {
        "super"@
    } else if t == "commandorcontrol"@ || t == "commandorctrl"@ || t == "cmdorcontrol"@ || t == "cmdorctrl"@ {
        "control"@
    } else if t == "!"@ {
        "1"@
    } else if t == "@"@ {
        "2"@
    } else if t == "#"@ {
        "3"@
    } else if t == "$"@ {
        "4"@
    } else if t == "%"@ {
        "5"@
    } else if t == "^"@ {
        "6"@
    } else if t == "&"@ {
        "7"@
    } else if t == "*"@ {
        "8"@
    } else if t == "("@ {
        "9"@
    } else if t == ")"@ {
        "0"@
    } else if t == "_"@ {
        "-"@
    } else if t == "plus"@ || t == "+"@ {
        "="@
    } else if t == "asterisk"@ {
        "8"@
    } else if t == "{"@ {
        "["@
    } else if t == "}"@ {
        "]"@
    } else if t == "|"@ {
        "\\"@
    } else if t == ":"@ {
        ";"@
    } else if t == "\""@ {
        "'"@
    } else if t == "<"@ {
        ","@
    } else if t == ">"@ {
        "."@
    } else if t == "?"@ {
        "/"@
    } else if t == "~"@ {
        "`"@
    } else {
        t
    }
}

fn hotkey_token_alias_exec(t: &Vec<char>) -> (r: Vec<char>)
    ensures
        r@ == hotkey_token_alias(t@),
{
    let name: &str = if chars_eq_str(t, "control") || chars_eq_str(t, "ctrl") {
        "control"
    } else if chars_eq_str(t, "shift") {
        "shift"
    } else if chars_eq_str(t, "alt") {
        "alt"
    } else if chars_eq_str(t, "meta") || chars_eq_str(t, "super") || chars_eq_str(t, "cmd") || chars_eq_str(t, "command") || chars_eq_str(t, "win") || chars_eq_str(t, "windows") {
        "super"
    } else if chars_eq_str(t, "commandorcontrol") || chars_eq_str(t, "commandorctrl") || chars_eq_str(t, "cmdorcontrol") || chars_eq_str(t, "cmdorctrl") {
        "control"
    } else if chars_eq_str(t, "!") {
        "1"
    } else if chars_eq_str(t, "@") {
        "2"
    } else if chars_eq_str(t, "#") {
        "3"
    } else if chars_eq_str(t, "$") {
        "4"
    } else if chars_eq_str(t, "%") {
        "5"
    } else if chars_eq_str(t, "^") {
        "6"
    } else if chars_eq_str(t, "&") {
        "7"
    } else if chars_eq_str(t, "*") {
        "8"
    } else if chars_eq_str(t, "(") {
        "9"
    } else if chars_eq_str(t, ")") {
        "0"
    } else if chars_eq_str(t, "_") {
        "-"
    } else if chars_eq_str(t, "plus") || chars_eq_str(t, "+") {
        "="
    } else if chars_eq_str(t, "asterisk") {
        "8"
    } else if chars_eq_str(t, "{") {
        "["
    } else if chars_eq_str(t, "}") {
        "]"
    } else if chars_eq_str(t, "|") {
        "\\"
    } else if chars_eq_str(t, ":") {
        ";"
    } else if chars_eq_str(t, "\"") {
        "'"
    } else if chars_eq_str(t, "<") {
        ","
    } else if chars_eq_str(t, ">") {
        "."
    } else if chars_eq_str(t, "?") {
        "/"
    } else if chars_eq_str(t, "~") {
        "`"
    } else {
        return copy_range(t, 0, t.len());
    };
    chars_of(name)
}


fn remove_whitespace(v: &Vec<char>) -> (r: Vec<char>)
    ensures
        r@ == without_ws(v@),
{
    let mut r: Vec<char> = Vec::new();
    for i in 0..v.len()
        invariant
            r@ == without_ws(v@.subrange(0, i as int)),
    {
        proof {
            assert(v@.subrange(0, i + 1).drop_last() =~= v@.subrange(0, i as int));
        }
        if !is_whitespace(v[i]) {
            r.push(v[i]);
        }
    }
    assert(v@.subrange(0, v@.len() as int) =~= v@);
    r
}

pub open spec fn token_views(ts: Seq<Vec<char>>) -> Seq<Seq<char>> {
    ts.map_values(|t: Vec<char>| t@)
}

fn split_plus_tokens(v: &Vec<char>) -> (r: Vec<Vec<char>>)
    ensures
        token_views(r@) == plus_tokens(v@),
{
    let n = v.len();
    let mut out: Vec<Vec<char>> = Vec::new();
    let mut cur: Vec<char> = Vec::new();
    assert(v@.skip(0) =~= v@);
    assert(token_views(out@) =~= Seq::<Seq<char>>::empty());
    for i in 0..n
        invariant
            n == v@.len(),
            token_views(out@) + plus_tokens_from(v@.skip(i as int), cur@) == plus_tokens(v@),
    {
        let ghost rest = v@.skip(i as int);
        let ghost out0 = token_views(out@);
        let ghost cur0 = cur@;
        proof {
            assert(rest[0] == v@[i as int]);
            assert(rest.drop_first() =~= v@.skip(i + 1));
        }
        if v[i] == '+' {
            if cur.len() > 0 {
                let done = cur;
                out.push(done);
                cur = Vec::new();
                proof {
                    assert(token_views(out@) =~= out0 + seq![cur0]);
                    assert(out0 + (seq![cur0] + plus_tokens_from(v@.skip(i + 1), Seq::empty())) =~= (out0 + seq![cur0]) + plus_tokens_from(v@.skip(i + 1), Seq::empty()));
                }
            } else {
                assert(Seq::<Seq<char>>::empty() + plus_tokens_from(v@.skip(i + 1), Seq::empty()) =~= plus_tokens_from(v@.skip(i + 1), Seq::empty()));
            }
            assert(cur@ =~= Seq::<char>::empty());
        } else {
            cur.push(v[i]);
        }
    }
    if cur.len() > 0 {
        let ghost out0 = token_views(out@);
        let ghost cur0 = cur@;
        out.push(cur);
        assert(token_views(out@) =~= out0 + seq![cur0]);
    }
    assert(v@.skip(n as int) =~= Seq::<char>::empty());
    assert(token_views(out@) + Seq::<Seq<char>>::empty() =~= token_views(out@));
    out
}

impl OverlayInfoOps {
    /// The canonical shortcut for a configured hotkey (see [`normalize_hotkey_spec`]).
    ///
    /// The shortcut parser of the app framework (tauri's global shortcut plugin, not a
    /// dependency of this library) has the last word on a shortcut: the part of its verdict
    /// stated here is that a shortcut needs a key part, so a text with no token, or with
    /// modifiers only, gives nothing; the rest of its verdict is asked where the parser is
    /// available. The command-or-control
    /// aliases are spelled `control` here, as on every platform but macOS, where the parser's
    /// caller spells them `super`; the library is built without conditional compilation.
    pub fn normalize_hotkey(raw: &str) -> (r: Option<String>)
        ensures
            match r {
                Some(s) => normalize_hotkey_spec(raw@) == Some(s@),
                None => normalize_hotkey_spec(raw@) is None,
            },
    {
        let t = trimmed_chars(raw);
        if t.len() == 0 {
            return None;
        }
        let compact = remove_whitespace(&t);
        let lowered = lower_chars(&compact);
        let tokens = split_plus_tokens(&lowered);
        let ghost tv = token_views(tokens@);
        if tokens.len() == 0 {
            return None;
        }
        let mut out: Vec<char> = Vec::new();
        let mut has_key = false;
        for i in 0..tokens.len()
            invariant
                tv == token_views(tokens@),
                tv == plus_tokens(lower_seq(without_ws(trim_seq(raw@)))),
                trim_seq(raw@).len() != 0,
                forall|j: int| 0 <= j < i ==> !is_blocked_hotkey_token(#[trigger] tv[j]),
                has_key == exists|j: int| 0 <= j < i && !is_modifier_token(hotkey_token_alias(#[trigger] tv[j])),
                out@ == join_plus(tv.subrange(0, i as int).map_values(|x: Seq<char>| hotkey_token_alias(x))),
        {
            let tok = &tokens[i];
            if chars_eq_str(tok, "backspace") || chars_eq_str(tok, "delete") {
                proof {
                    assert(tv[i as int] == tok@);
                    assert(is_blocked_hotkey_token(tv[i as int]));
                    assert(tv == plus_tokens(lower_seq(without_ws(trim_seq(raw@)))));
                    assert(trim_seq(raw@).len() != 0);
                }
                return None;
            }
            let mapped = hotkey_token_alias_exec(tok);
            if !(chars_eq_str(&mapped, "control") || chars_eq_str(&mapped, "shift") || chars_eq_str(&mapped, "alt")
                || chars_eq_str(&mapped, "super")) {
                has_key = true;
                assert(tv[i as int] == tok@);
            }
            proof {
                assert(tv[i as int] == tok@);
            }
            let ghost before = out@;
            if i > 0 {
                out.push('+');
            }
            for k in 0..mapped.len()
                invariant
                    out@ == (if i > 0 { before.push('+') } else { before }) + mapped@.subrange(0, k as int),
            {
                out.push(mapped[k]);
                assert(out@ =~= (if i > 0 { before.push('+') } else { before }) + mapped@.subrange(0, k + 1));
            }
            proof {
                assert(mapped@.subrange(0, mapped@.len() as int) =~= mapped@);
                let f = |x: Seq<char>| hotkey_token_alias(x);
                let pre = tv.subrange(0, i as int).map_values(f);
                let now = tv.subrange(0, i + 1).map_values(f);
                assert(now.drop_last() =~= pre);
                assert(tv[i as int] == tok@);
                assert(now.last() == mapped@);
                if i > 0 {
                    reveal_strlit("+");
                    assert(before.push('+') + mapped@ =~= join_plus(pre) + "+"@ + mapped@);
                } else {
                    assert(pre =~= Seq::<Seq<char>>::empty());
                    assert(now.len() == 1);
                    assert(before + mapped@ =~= mapped@);
                }
            }
        }
        proof {
            assert(tv.subrange(0, tv.len() as int) =~= tv);
            reveal_strlit("backspace");
            reveal_strlit("delete");
        }
        if !has_key {
            return None;
        }
        Some(string_from_chars(&out))
    }

    /// Whether the in-game overlay follows the game window: only while no replay is shown.
    pub fn sc2_overlay_should_sync(replay_overlay_active: bool) -> (r: bool)
        ensures
            r == !replay_overlay_active,
    {
        !replay_overlay_active
    }
}


/// Replay-list steps taken by a move of `delta` toward older replays (`delta < 0`).
pub open spec fn older_steps(delta: i64) -> usize {
    ((-(delta as int)) as u64) as usize
}

/// Index shown after moving `delta` places from the selected replay: positive toward newer
/// (lower index, stopping at 0), negative toward older (higher index, stopping at the last).
pub open spec fn replay_move_target_spec(
    replay_count: usize,
    selected_index: Option<usize>,
    delta: i64,
    replay_data_active: bool,
) -> int {
    if replay_count == 0 || !replay_data_active {
        0
    } else {
        let index: int = match selected_index {
            Some(i) => i as int,
            None => 0,
        };
        if delta > 0 {
            if index - (delta as usize) < 0 {
                0
            } else {
                index - (delta as usize)
            }
        } else if delta < 0 {
            if index + older_steps(delta) < replay_count - 1 {
                index + older_steps(delta)
            } else {
                replay_count - 1
            }
        } else {
            index
        }
    }
}

impl OverlayInfoOps {
    /// Where a move lands in a list of `replay_count` replays whose selected replay stands at
    /// `selected_index` (the position of the selected file, if it is listed).
    pub fn replay_move_target_index(
        replay_count: usize,
        selected_index: Option<usize>,
        delta: i64,
        replay_data_active: bool,
    ) -> (r: usize)
        requires
            selected_index matches Some(i) ==> i < replay_count,
        ensures
            r as int == replay_move_target_spec(replay_count, selected_index, delta, replay_data_active),
    {
        if replay_count == 0 || !replay_data_active {
            return 0;
        }
        let mut index = match selected_index {
            Some(i) => i,
            None => 0,
        };
        if delta > 0 {
            let steps = delta as usize;
            index = if index < steps {
                0
            } else {
                index - steps
            };
        } else if delta < 0 {
            let magnitude: u64 = if delta == i64::MIN {
                9223372036854775808u64
            } else {
                (-delta) as u64
            };
            let steps = magnitude as usize;
            let last = replay_count - 1;
            index = if steps >= last - index {
                last
            } else {
                index + steps
            };
        }
        index
    }

    /// A move is ignored when replay data is shown and it would stay where it is.
    pub fn replay_move_should_be_ignored(
        current_index: Option<usize>,
        target_index: usize,
        replay_data_active: bool,
    ) -> (r: bool)
        ensures
            r == (replay_data_active && current_index == Some(target_index)),
    {
        match current_index {
            Some(index) => replay_data_active && index == target_index,
            None => false,
        }
    }
}

/// Position and size of a monitor.
#[derive(Clone, Copy, Debug, PartialEq, Eq, Structural)]
pub struct OverlayMonitorGeometry {
    pub monitor_x: i32,
    pub monitor_y: i32,
    pub monitor_width: u32,
    pub monitor_height: u32,
}

impl OverlayMonitorGeometry {
    pub fn new(monitor_x: i32, monitor_y: i32, monitor_width: u32, monitor_height: u32) -> (r: Self)
        ensures
            r == (OverlayMonitorGeometry { monitor_x, monitor_y, monitor_width, monitor_height }),
    {
        Self { monitor_x, monitor_y, monitor_width, monitor_height }
    }
}

/// Offsets of the overlay window from the top-right corner of its monitor.
#[derive(Clone, Copy, Debug, Eq, PartialEq, Structural)]
pub struct OverlayWindowOffsets {
    pub top_offset: i32,
    pub right_offset: i32,
    pub subtract_height: i32,
}

impl OverlayWindowOffsets {
    pub fn new(top_offset: i32, right_offset: i32, subtract_height: i32) -> (r: Self)
        ensures
            r == (OverlayWindowOffsets { top_offset, right_offset, subtract_height }),
    {
        Self { top_offset, right_offset, subtract_height }
    }
}

/// A window position in physical pixels.
#[derive(Clone, Copy, Debug, Eq, PartialEq, Structural)]
pub struct OverlayWindowPosition {
    pub x: i32,
    pub y: i32,
}

/// A window size in physical pixels.
#[derive(Clone, Copy, Debug, Eq, PartialEq, Structural)]
pub struct OverlayWindowSize {
    pub width: u32,
    pub height: u32,
}

/// The free width of a monitor beside a window, or 0 when it does not fit in an `i32`.
pub open spec fn free_width(monitor_width: u32, window_width: u32) -> int {
    let free: int = if monitor_width >= window_width { monitor_width - window_width } else { 0 };
    if free <= i32::MAX { free } else { 0 }
}

impl OverlayInfoOps {
    /// The overlay's top-left corner: right-aligned on the monitor, then shifted by the offsets.
    pub fn overlay_window_position_for_monitor(
        monitor_x: i32,
        monitor_y: i32,
        monitor_width: u32,
        window_width: u32,
        top_offset: i32,
        right_offset: i32,
    ) -> (r: OverlayWindowPosition)
        requires
            i32::MIN <= monitor_x + free_width(monitor_width, window_width) <= i32::MAX,
            i32::MIN <= monitor_x + free_width(monitor_width, window_width) + right_offset <= i32::MAX,
            i32::MIN <= monitor_y + top_offset <= i32::MAX,
        ensures
            r.x == monitor_x + free_width(monitor_width, window_width) + right_offset,
            r.y == monitor_y + top_offset,
    {
        let free = if monitor_width >= window_width {
            monitor_width - window_width
        } else {
            0
        };
        let free_i32: i32 = if free <= (i32::MAX as u32) {
            free as i32
        } else {
            0
        };
        OverlayWindowPosition { x: monitor_x + free_i32 + right_offset, y: monitor_y + top_offset }
    }

    /// Sizes match when each side is within one pixel.
    pub fn overlay_window_size_matches_target(
        actual_size: OverlayWindowSize,
        target_size: OverlayWindowSize,
    ) -> (r: bool)
        ensures
            r == ((actual_size.width - target_size.width <= 1 && target_size.width - actual_size.width <= 1)
                && (actual_size.height - target_size.height <= 1 && target_size.height - actual_size.height <= 1)),
    {
        let dw = if actual_size.width >= target_size.width {
            actual_size.width - target_size.width
        } else {
            target_size.width - actual_size.width
        };
        let dh = if actual_size.height >= target_size.height {
            actual_size.height - target_size.height
        } else {
            target_size.height - actual_size.height
        };
        dw <= 1 && dh <= 1
    }
}

} // verus!

verus! {

/// Builds the texts of the replay shown on the overlay.
pub struct OverlayReplayPayload;

/// The label at `index`, if there is one.
pub open spec fn label_at(labels: Seq<String>, index: int) -> Option<Seq<char>> {
    if 0 <= index < labels.len() {
        Some(labels[index]@)
    } else {
        None
    }
}

/// The prestige name the dictionary lists for a (cleaned) commander and prestige: Korean
/// first when the language is Korean, else English.
pub open spec fn listed_prestige_name(
    names: Map<Seq<char>, LocalizedLabels>,
    commander: Seq<char>,
    index: int,
    language: Seq<char>,
) -> Option<Seq<char>> {
    if names.contains_key(commander) {
        let labels = names[commander];
        if language == "ko"@ {
            match label_at(labels.ko@, index) {
                Some(l) => Some(l),
                None => label_at(labels.en@, index),
            }
        } else {
            label_at(labels.en@, index)
        }
    } else {
        None
    }
}

/// `P` and the prestige number.
pub open spec fn prestige_number_text(prestige: u64) -> Seq<char> {
    seq!['P'] + decimal_seq(prestige as nat)
}

/// The prestige text shown for a commander: nothing for prestige 0; else the listed name, or
/// the dictionary's other name for it (`fallback`), or `P` and the number.
pub open spec fn localized_prestige_spec(
    commander: Seq<char>,
    prestige: u64,
    language: Seq<char>,
    names: Map<Seq<char>, LocalizedLabels>,
    fallback: Option<Seq<char>>,
) -> Seq<char> {
    if prestige == 0 {
        Seq::empty()
    } else if prestige > usize::MAX {
        prestige_number_text(prestige)
    } else {
        match listed_prestige_name(names, sanitize_spec(commander), prestige as int, language) {
            Some(l) => l,
            None => match fallback {
                Some(f) => f,
                None => prestige_number_text(prestige),
            },
        }
    }
}

fn label_at_exec(labels: &Vec<String>, index: usize) -> (r: Option<String>)
    ensures
        match r {
            Some(s) => label_at(labels@, index as int) == Some(s@),
            None => label_at(labels@, index as int) is None,
        },
{
    if index < labels.len() {
        Some(labels[index].clone())
    } else {
        None
    }
}

fn prestige_number(prestige: u64) -> (r: String)
    ensures
        r@ == prestige_number_text(prestige),
{
    let mut v: Vec<char> = Vec::new();
    v.push('P');
    push_decimal(&mut v, prestige);
    proof {
        assert(seq!['P'] + decimal_seq(prestige as nat) =~= v@);
    }
    string_from_chars(&v)
}

impl OverlayReplayPayload {
    /// The prestige text of a commander in the given language: the names come from the
    /// dictionary's prestige lists, keyed by cleaned commander name; `fallback_name` is the
    /// dictionary's other name for the prestige, where it has one.
    pub fn localized_prestige_text_with_dictionary(
        commander: &str,
        prestige: u64,
        language: &str,
        prestige_names: &TextMap<LocalizedLabels>,
        fallback_name: Option<String>,
    ) -> (r: String)
        requires
            prestige_names.wf(),
        ensures
            r@ == localized_prestige_spec(
                commander@,
                prestige,
                language@,
                prestige_names.map(),
                match fallback_name {
                    Some(f) => Some(f@),
                    None => None,
                },
            ),
    {
        if prestige == 0 {
            return String::new();
        }
        if prestige as u128 > usize::MAX as u128 {
            return prestige_number(prestige);
        }
        let index = prestige as usize;
        let commander = sanitize_replay_text(commander);
        let lookup = match prestige_names.get(commander.as_str()) {
            Some(labels) => {
                proof {
                    reveal_strlit("ko");
                }
                if str_eq(language, "ko") {
                    match label_at_exec(&labels.ko, index) {
                        Some(l) => Some(l),
                        None => label_at_exec(&labels.en, index),
                    }
                } else {
                    label_at_exec(&labels.en, index)
                }
            },
            None => None,
        };
        match lookup {
            Some(l) => l,
            None => match fallback_name {
                Some(f) => f,
                None => prestige_number(prestige),
            },
        }
    }

    /// The prestige text without a dictionary: nothing for prestige 0, else `P` and the number.
    pub fn localized_prestige_text(prestige: u64) -> (r: String)
        ensures
            r@ == (if prestige == 0 {
                Seq::empty()
            } else {
                prestige_number_text(prestige)
            }),
    {
        if prestige == 0 {
            return String::new();
        }
        prestige_number(prestige)
    }
}

pub open spec fn opt_str_view(o: Option<&str>) -> Option<Seq<char>> {
    match o {
        Some(s) => Some(s@),
        None => None,
    }
}

/// Whether `r` is the index that `spec` gives, or nothing when it gives none.
pub open spec fn display_outcome(r: Option<usize>, spec: Option<int>) -> bool {
    match r {
        Some(i) => spec == Some(i as int),
        None => spec is None,
    }
}

pub open spec fn opt_string_view(o: Option<String>) -> Option<Seq<char>> {
    match o {
        Some(s) => Some(s@),
        None => None,
    }
}

/// The index of the first of `files` equal to `f`.
pub open spec fn first_equal(files: Seq<String>, f: Seq<char>) -> Option<int>
    decreases files.len(),
{
    if files.len() == 0 {
        None
    } else if files[0]@ == f {
        Some(0)
    } else {
        match first_equal(files.drop_first(), f) {
            Some(j) => Some(j + 1),
            None => None,
        }
    }
}

/// The index of the first file whose file name (as given in `names`) is `name`.
pub open spec fn first_named(names: Seq<Option<String>>, name: Seq<char>) -> Option<int>
    decreases names.len(),
{
    if names.len() == 0 {
        None
    } else if names[0] matches Some(n) && n@ == name {
        Some(0)
    } else {
        match first_named(names.drop_first(), name) {
            Some(j) => Some(j + 1),
            None => None,
        }
    }
}

/// The replay to display: the requested one (by path, else by file name) when a request is
/// given, else the selected one (by path, else by file name). `names` are the files' names and
/// `requested_name`/`selected_name` those of the request and the selection, as the platform's
/// paths give them.
pub open spec fn replay_for_display_spec(
    files: Seq<String>,
    names: Seq<Option<String>>,
    requested: Option<Seq<char>>,
    requested_name: Option<Seq<char>>,
    selected: Option<Seq<char>>,
    selected_name: Option<Seq<char>>,
) -> Option<int> {
    let lookup = |path: Seq<char>, name: Option<Seq<char>>| match first_equal(files, path) {
        Some(i) => Some(i),
        None => match name {
            Some(n) => first_named(names, n),
            None => None,
        },
    };
    match requested {
        Some(r) if trim_seq(r).len() > 0 => lookup(trim_seq(r), requested_name),
        _ => match selected {
            Some(s) => lookup(s, selected_name),
            None => None,
        },
    }
}

proof fn lemma_first_equal_prefix(files: Seq<String>, f: Seq<char>, i: int)
    requires
        0 <= i <= files.len(),
        forall|j: int| 0 <= j < i ==> (#[trigger] files[j])@ != f,
    ensures
        i < files.len() && files[i]@ == f ==> first_equal(files, f) == Some(i),
        i == files.len() ==> first_equal(files, f) is None,
    decreases i,
{
    if i > 0 {
        assert forall|j: int| 0 <= j < i - 1 implies (#[trigger] files.drop_first()[j])@ != f by {
            assert(files.drop_first()[j] == files[j + 1]);
        }
        lemma_first_equal_prefix(files.drop_first(), f, i - 1);
        if i < files.len() {
            assert(files.drop_first()[i - 1] == files[i]);
        }
    }
}

proof fn lemma_first_named_prefix(names: Seq<Option<String>>, n: Seq<char>, i: int)
    requires
        0 <= i <= names.len(),
        forall|j: int| 0 <= j < i ==> !(#[trigger] names[j] matches Some(x) && x@ == n),
    ensures
        i < names.len() && (names[i] matches Some(x) && x@ == n) ==> first_named(names, n) == Some(i),
        i == names.len() ==> first_named(names, n) is None,
    decreases i,
{
    if i > 0 {
        assert forall|j: int| 0 <= j < i - 1 implies !(#[trigger] names.drop_first()[j] matches Some(x) && x@ == n) by {
            assert(names.drop_first()[j] == names[j + 1]);
        }
        lemma_first_named_prefix(names.drop_first(), n, i - 1);
        if i < names.len() {
            assert(names.drop_first()[i - 1] == names[i]);
        }
    }
}

fn find_equal(files: &[String], f: &str) -> (r: Option<usize>)
    ensures
        match r {
            Some(i) => first_equal(files@, f@) == Some(i as int),
            None => first_equal(files@, f@) is None,
        },
{
    let mut i: usize = 0;
    while i < files.len()
        invariant
            i <= files@.len(),
            forall|j: int| 0 <= j < i ==> (#[trigger] files@[j])@ != f@,
        decreases files@.len() - i,
    {
        if str_eq(files[i].as_str(), f) {
            proof {
                lemma_first_equal_prefix(files@, f@, i as int);
            }
            return Some(i);
        }
        i = i + 1;
    }
    proof {
        lemma_first_equal_prefix(files@, f@, i as int);
    }
    None
}

fn find_named(names: &[Option<String>], n: &str) -> (r: Option<usize>)
    ensures
        match r {
            Some(i) => first_named(names@, n@) == Some(i as int),
            None => first_named(names@, n@) is None,
        },
{
    let mut i: usize = 0;
    while i < names.len()
        invariant
            i <= names@.len(),
            forall|j: int| 0 <= j < i ==> !(#[trigger] names@[j] matches Some(x) && x@ == n@),
        decreases names@.len() - i,
    {
        let hit = match &names[i] {
            Some(x) => str_eq(x.as_str(), n),
            None => false,
        };
        if hit {
            proof {
                lemma_first_named_prefix(names@, n@, i as int);
            }
            return Some(i);
        }
        i = i + 1;
    }
    proof {
        lemma_first_named_prefix(names@, n@, i as int);
    }
    None
}

fn find_replay(files: &[String], names: &[Option<String>], path: &str, name: Option<String>) -> (r: Option<usize>)
    ensures
        match r {
            Some(i) => Some(i as int) == match first_equal(files@, path@) {
                Some(i) => Some(i),
                None => match name {
                    Some(n) => first_named(names@, n@),
                    None => None,
                },
            },
            None => match first_equal(files@, path@) {
                Some(i) => false,
                None => match name {
                    Some(n) => first_named(names@, n@) is None,
                    None => true,
                },
            },
        },
{
    match find_equal(files, path) {
        Some(i) => Some(i),
        None => match name {
            Some(n) => find_named(names, n.as_str()),
            None => None,
        },
    }
}

/// The file name of a path as `std::path::Path::file_name` gives it. Where a path is cut into
/// names depends on the platform, so nothing is promised of the result.
#[verifier::external_body]
fn platform_file_name(path: &str) -> (r: Option<String>) {
    std::path::Path::new(path).file_name().map(|name| name.to_string_lossy().to_string())
}

impl OverlayInfoOps {
    /// The replay to display (see [`replay_for_display_spec`]), given the files' names and
    /// those of the request and the selection.
    pub fn replay_for_display_by_names(
        files: &[String],
        file_names: &[Option<String>],
        requested: Option<&str>,
        requested_name: Option<String>,
        selected: Option<&str>,
        selected_name: Option<String>,
    ) -> (r: Option<usize>)
        ensures
            ({
                let spec = replay_for_display_spec(
                    files@,
                    file_names@,
                    match requested {
                        Some(q) => Some(q@),
                        None => None,
                    },
                    match requested_name {
                        Some(q) => Some(q@),
                        None => None,
                    },
                    match selected {
                        Some(s) => Some(s@),
                        None => None,
                    },
                    match selected_name {
                        Some(s) => Some(s@),
                        None => None,
                    },
                );
                match r {
                    Some(i) => spec == Some(i as int),
                    None => spec is None,
                }
            }),
    {
        if let Some(q) = requested {
            let t = trim(q);
            if !t.as_str().is_empty() {
                return find_replay(files, file_names, t.as_str(), requested_name);
            }
        }
        match selected {
            Some(s) => find_replay(files, file_names, s, selected_name),
            None => None,
        }
    }

    /// The replay to display among `files`: the requested one when a request is given, else the
    /// selected one; each found by path, else by file name.
    pub fn replay_for_display(files: &[String], requested: Option<&str>, selected: Option<&str>) -> (r: Option<usize>)
        ensures
            r matches Some(i) ==> i < files@.len(),
            exists|names: Seq<Option<String>>, requested_name: Option<Seq<char>>, selected_name: Option<Seq<char>>|
                #![trigger replay_for_display_spec(files@, names, opt_str_view(requested), requested_name, opt_str_view(selected), selected_name)]
                names.len() == files@.len() && display_outcome(
                    r,
                    replay_for_display_spec(
                        files@,
                        names,
                        opt_str_view(requested),
                        requested_name,
                        opt_str_view(selected),
                        selected_name,
                    ),
                ),
            match requested {
                Some(q) => trim_seq(q@).len() > 0 && first_equal(files@, trim_seq(q@)) is Some ==> r == Some(
                    first_equal(files@, trim_seq(q@))->0 as usize,
                ),
                None => true,
            },
            (match requested {
                Some(q) => trim_seq(q@).len() == 0,
                None => true,
            }) ==> (match selected {
                Some(s) => first_equal(files@, s@) is Some ==> r == Some(first_equal(files@, s@)->0 as usize),
                None => r is None,
            }),
    {
        let mut names: Vec<Option<String>> = Vec::new();
        for i in 0..files.len()
            invariant
                names@.len() == i,
        {
            names.push(platform_file_name(files[i].as_str()));
        }
        let requested_name = match requested {
            Some(q) => platform_file_name(trim(q).as_str()),
            None => None,
        };
        let selected_name = match selected {
            Some(s) => platform_file_name(s),
            None => None,
        };
        let ghost rn = opt_string_view(requested_name);
        let ghost sn = opt_string_view(selected_name);
        proof {
            lemma_display_index_bounds(
                files@,
                names@,
                match requested {
                    Some(q) => Some(q@),
                    None => None,
                },
                rn,
                match selected {
                    Some(s) => Some(s@),
                    None => None,
                },
                sn,
            );
        }
        let r = Self::replay_for_display_by_names(files, names.as_slice(), requested, requested_name, selected, selected_name);
        proof {
            assert(opt_str_view(requested) == match requested {
                Some(q) => Some(q@),
                None => None,
            });
            assert(opt_str_view(selected) == match selected {
                Some(s) => Some(s@),
                None => None,
            });
            let spec = replay_for_display_spec(files@, names@, opt_str_view(requested), rn, opt_str_view(selected), sn);
            assert(display_outcome(r, spec));
            if let Some(q) = requested {
                lemma_first_equal_bounds(files@, trim_seq(q@));
            }
            if let Some(s) = selected {
                lemma_first_equal_bounds(files@, s@);
            }
        }
        r
    }

    /// The start-up flags that the given settings ask for.
    pub fn parse_runtime_flags(settings: &AppSettings) -> (r: RuntimeFlags)
        ensures
            r.flags_view() == (
                settings@.minimize_to_tray && settings@.start_minimized,
                settings@.minimize_to_tray,
                settings@.auto_update,
            ),
    {
        settings.runtime_flags()
    }
}

proof fn lemma_first_equal_bounds(files: Seq<String>, f: Seq<char>)
    ensures
        first_equal(files, f) matches Some(i) ==> 0 <= i < files.len(),
    decreases files.len(),
{
    if files.len() > 0 {
        lemma_first_equal_bounds(files.drop_first(), f);
    }
}

proof fn lemma_first_named_bounds(names: Seq<Option<String>>, n: Seq<char>)
    ensures
        first_named(names, n) matches Some(i) ==> 0 <= i < names.len(),
    decreases names.len(),
{
    if names.len() > 0 {
        lemma_first_named_bounds(names.drop_first(), n);
    }
}

proof fn lemma_display_index_bounds(
    files: Seq<String>,
    names: Seq<Option<String>>,
    requested: Option<Seq<char>>,
    requested_name: Option<Seq<char>>,
    selected: Option<Seq<char>>,
    selected_name: Option<Seq<char>>,
)
    requires
        names.len() == files.len(),
    ensures
        replay_for_display_spec(files, names, requested, requested_name, selected, selected_name) matches Some(i)
            ==> 0 <= i < files.len(),
{
    if let Some(r) = requested {
        lemma_first_equal_bounds(files, trim_seq(r));
        if let Some(n) = requested_name {
            lemma_first_named_bounds(names, n);
        }
    }
    if let Some(s) = selected {
        lemma_first_equal_bounds(files, s);
        if let Some(n) = selected_name {
            lemma_first_named_bounds(names, n);
        }
    }
}


/// A move lands on a listed replay; in an empty list it stays at the top.
pub proof fn law_replay_move_stays_in_list(
    replay_count: usize,
    selected_index: Option<usize>,
    delta: i64,
    replay_data_active: bool,
)
    requires
        selected_index matches Some(i) ==> i < replay_count,
    ensures
        replay_count > 0 ==> 0 <= replay_move_target_spec(replay_count, selected_index, delta, replay_data_active)
            < replay_count,
        replay_count == 0 ==> replay_move_target_spec(replay_count, selected_index, delta, replay_data_active) == 0,
{
}

} // verus!
