use vstd::prelude::*;

use crate::app_settings::{player_note_spec, AppSettings};
use crate::text::{decimal_seq, decimal_string, sanitize_replay_text, sanitize_spec, trim, trim_seq};

verus! {

/// Decisions of the app's shared state that stand on their own.
pub struct BackendStateOps;

pub open spec fn opt_view(o: Option<String>) -> Option<Seq<char>> {
    match o {
        Some(s) => Some(s@),
        None => None,
    }
}

/// The player whose statistics to show for a replay: the other one when exactly one player is
/// the user, else the ally when named, else the main player; each as (handle, trimmed name),
/// and nothing when the chosen one has no name.
pub open spec fn other_player_spec(
    p1_name: Seq<char>,
    p1_handle: Seq<char>,
    p2_name: Seq<char>,
    p2_handle: Seq<char>,
    p1_is_main: bool,
    p2_is_main: bool,
) -> Option<(Seq<char>, Seq<char>)> {
    let p1 = trim_seq(p1_name);
    let p2 = trim_seq(p2_name);
    if p1.len() == 0 && p2.len() == 0 {
        None
    } else if p1_is_main && !p2_is_main {
        if p2.len() > 0 {
            Some((p2_handle, p2))
        } else {
            None
        }
    } else if !p1_is_main && p2_is_main {
        if p1.len() > 0 {
            Some((p1_handle, p1))
        } else {
            None
        }
    } else if p2.len() > 0 {
        Some((p2_handle, p2))
    } else {
        Some((p1_handle, p1))
    }
}

/// The time since a player was last seen, in years, days, hours and minutes (the non-zero
/// ones, minutes when all are zero), as `… ago`; nothing when never seen or when the clock is
/// not readable.
pub open spec fn last_seen_spec(last_seen: u64, now: Option<u64>) -> Seq<char> {
    if last_seen == 0 {
        Seq::empty()
    } else {
        match now {
            None => Seq::empty(),
            Some(n) => {
                let delta: int = if n >= last_seen {
                    n - last_seen
                } else {
                    0
                };
                let years = delta / 31557600;
                let days = (delta % 31557600) / 86400;
                let hours = (delta % 31557600 % 86400) / 3600;
                let minutes = (delta % 31557600 % 86400 % 3600) / 60;
                let parts = (if years > 0 {
                    seq![decimal_seq(years as nat) + " years"@]
                } else {
                    Seq::empty()
                }) + (if days > 0 {
                    seq![decimal_seq(days as nat) + " days"@]
                } else {
                    Seq::empty()
                }) + (if hours > 0 {
                    seq![decimal_seq(hours as nat) + " hours"@]
                } else {
                    Seq::empty()
                });
                let parts = if minutes > 0 || parts.len() == 0 {
                    parts.push(decimal_seq(minutes as nat) + " minutes"@)
                } else {
                    parts
                };
                join_spaces(parts) + " ago"@
            },
        }
    }
}

/// `parts` joined with single spaces.
pub open spec fn join_spaces(parts: Seq<Seq<char>>) -> Seq<char>
    decreases parts.len(),
{
    if parts.len() == 0 {
        Seq::empty()
    } else if parts.len() == 1 {
        parts[0]
    } else {
        join_spaces(parts.drop_last()) + " "@ + parts.last()
    }
}

/// A deadline `duration` after `now`, held at the largest time.
pub open spec fn deadline_spec(now: u64, duration: u64) -> u64 {
    if now + duration > u64::MAX {
        u64::MAX
    } else {
        (now + duration) as u64
    }
}

fn push_part(parts: &mut Vec<String>, n: u64, unit: &str)
    ensures
        final(parts)@.len() == old(parts)@.len() + 1,
        forall|i: int| 0 <= i < old(parts)@.len() ==> final(parts)@[i] == old(parts)@[i],
        final(parts)@.last()@ == decimal_seq(n as nat) + unit@,
{
    let mut s = decimal_string(n);
    s.append(unit);
    parts.push(s);
}

impl BackendStateOps {
    /// A count as `u32`, held at the largest `u32`.
    pub fn as_u32(value: u64) -> (r: u32)
        ensures
            r == (if value <= u32::MAX {
                value as u32
            } else {
                u32::MAX
            }),
    {
        if value <= u32::MAX as u64 {
            value as u32
        } else {
            u32::MAX
        }
    }

    /// The player whose statistics to show for a replay (see [`other_player_spec`]); whether
    /// each player is the user is decided by the caller.
    pub fn select_other_player_for_stats(
        p1_name: &str,
        p1_handle: &str,
        p2_name: &str,
        p2_handle: &str,
        p1_is_main: bool,
        p2_is_main: bool,
    ) -> (r: Option<(String, String)>)
        ensures
            match r {
                Some((h, n)) => other_player_spec(p1_name@, p1_handle@, p2_name@, p2_handle@, p1_is_main, p2_is_main)
                    == Some((h@, n@)),
                None => other_player_spec(p1_name@, p1_handle@, p2_name@, p2_handle@, p1_is_main, p2_is_main) is None,
            },
    {
        let p1 = trim(p1_name);
        let p2 = trim(p2_name);
        if p1.as_str().is_empty() && p2.as_str().is_empty() {
            return None;
        }
        if p1_is_main && !p2_is_main {
            if !p2.as_str().is_empty() {
                Some((String::from_str(p2_handle), p2))
            } else {
                None
            }
        } else if !p1_is_main && p2_is_main {
            if !p1.as_str().is_empty() {
                Some((String::from_str(p1_handle), p1))
            } else {
                None
            }
        } else if !p2.as_str().is_empty() {
            Some((String::from_str(p2_handle), p2))
        } else {
            Some((String::from_str(p1_handle), p1))
        }
    }

    /// The note on a player: the one under the handle, else the one under the name.
    pub fn player_note_for_identity(settings: &AppSettings, player_handle: &str, player_name: &str) -> (r: Option<String>)
        requires
            settings.wf(),
        ensures
            opt_view(r) == match player_note_spec(settings@, player_handle@) {
                Some(n) => Some(n),
                None => player_note_spec(settings@, player_name@),
            },
    {
        match settings.player_note(player_handle) {
            Some(n) => Some(n),
            None => settings.player_note(player_name),
        }
    }

    /// The name and note shown for a row of player statistics: the cleaned row name (or the
    /// requested name when it is blank), and the note under the row's handle or that name,
    /// else under the requested handle or that name.
    pub fn overlay_stats_identity(
        settings: &AppSettings,
        requested_player_handle: &str,
        requested_player_name: &str,
        row_player: &str,
        row_handle: &str,
    ) -> (r: (String, Option<String>))
        requires
            settings.wf(),
        ensures
            ({
                let cleaned = sanitize_spec(row_player@);
                let name = if trim_seq(cleaned).len() == 0 {
                    requested_player_name@
                } else {
                    cleaned
                };
                let note_for = |h: Seq<char>| match player_note_spec(settings@, h) {
                    Some(n) => Some(n),
                    None => player_note_spec(settings@, name),
                };
                &&& r.0@ == name
                &&& opt_view(r.1) == match note_for(row_handle@) {
                    Some(n) => Some(n),
                    None => note_for(requested_player_handle@),
                }
            }),
    {
        let cleaned = sanitize_replay_text(row_player);
        let name = if trim(cleaned.as_str()).as_str().is_empty() {
            String::from_str(requested_player_name)
        } else {
            cleaned
        };
        let note = match Self::player_note_for_identity(settings, row_handle, name.as_str()) {
            Some(n) => Some(n),
            None => Self::player_note_for_identity(settings, requested_player_handle, name.as_str()),
        };
        (name, note)
    }

    /// How long ago a player was last seen (see [`last_seen_spec`]), given the time now in
    /// seconds since the Unix epoch (nothing when the clock reads before it).
    pub fn relative_last_seen_text(last_seen: u64, now_seconds: Option<u64>) -> (r: String)
        ensures
            r@ == last_seen_spec(last_seen, now_seconds),
    {
        if last_seen == 0 {
            return String::new();
        }
        let now = match now_seconds {
            Some(n) => n,
            None => {
                return String::new();
            },
        };
        let mut delta = now.saturating_sub(last_seen);
        let years = delta / 31557600;
        delta = delta % 31557600;
        let days = delta / 86400;
        delta = delta % 86400;
        let hours = delta / 3600;
        delta = delta % 3600;
        let minutes = delta / 60;
        let mut parts: Vec<String> = Vec::new();
        if years > 0 {
            push_part(&mut parts, years, " years");
        }
        if days > 0 {
            push_part(&mut parts, days, " days");
        }
        if hours > 0 {
            push_part(&mut parts, hours, " hours");
        }
        if minutes > 0 || parts.len() == 0 {
            push_part(&mut parts, minutes, " minutes");
        }
        proof {
            let d: int = if now >= last_seen {
                now - last_seen
            } else {
                0
            };
            let y = d / 31557600;
            let dd = (d % 31557600) / 86400;
            let hh = (d % 31557600 % 86400) / 3600;
            let mm = (d % 31557600 % 86400 % 3600) / 60;
            let expected = (if y > 0 {
                seq![decimal_seq(y as nat) + " years"@]
            } else {
                Seq::empty()
            }) + (if dd > 0 {
                seq![decimal_seq(dd as nat) + " days"@]
            } else {
                Seq::empty()
            }) + (if hh > 0 {
                seq![decimal_seq(hh as nat) + " hours"@]
            } else {
                Seq::empty()
            });
            let expected = if mm > 0 || expected.len() == 0 {
                expected.push(decimal_seq(mm as nat) + " minutes"@)
            } else {
                expected
            };
            assert(parts@.map_values(|s: String| s@) =~= expected);
        }
        let mut out = String::new();
        let ghost ps = parts@.map_values(|s: String| s@);
        for i in 0..parts.len()
            invariant
                ps == parts@.map_values(|s: String| s@),
                out@ == join_spaces(ps.take(i as int)),
        {
            if i > 0 {
                out.append(" ");
            }
            out.append(parts[i].as_str());
            proof {
                assert(ps.take(i + 1).drop_last() =~= ps.take(i as int));
                if i == 0 {
                    assert(ps.take(1).len() == 1);
                }
            }
        }
        proof {
            assert(ps.take(ps.len() as int) =~= ps);
        }
        out.append(" ago");
        out
    }

    /// A deadline `duration_millis` after `now_millis`.
    pub fn deadline_after(now_millis: u64, duration_millis: u64) -> (r: u64)
        ensures
            r == deadline_spec(now_millis, duration_millis),
    {
        now_millis.saturating_add(duration_millis)
    }

    /// The hide deadline of the first-win-bonus timer after a request to start it: a deadline
    /// already set stays; else it is `duration_millis` from now.
    pub fn first_win_bonus_hide_deadline(current_deadline: u64, now_millis: u64, duration_millis: u64) -> (r: u64)
        ensures
            r == (if current_deadline != 0 {
                current_deadline
            } else {
                deadline_spec(now_millis, duration_millis)
            }),
    {
        if current_deadline != 0 {
            current_deadline
        } else {
            Self::deadline_after(now_millis, duration_millis)
        }
    }

    /// Whether a set deadline has not yet come.
    pub fn deadline_active(deadline: u64, now_millis: u64) -> (r: bool)
        ensures
            r == (deadline != 0 && now_millis < deadline),
    {
        deadline != 0 && now_millis < deadline
    }

    /// Whether a set deadline has come.
    pub fn deadline_elapsed(deadline: u64, now_millis: u64) -> (r: bool)
        ensures
            r == (deadline != 0 && now_millis >= deadline),
    {
        deadline != 0 && now_millis >= deadline
    }

    /// The latest replay modification time after seeing one more (0 means none was seen).
    pub fn latest_modified_time(current: u64, seen: u64) -> (r: u64)
        ensures
            r == (if seen != 0 && seen > current {
                seen
            } else {
                current
            }),
    {
        if seen != 0 && seen > current {
            seen
        } else {
            current
        }
    }

    /// A stored time, where 0 stands for none.
    pub fn observed_time(stored: u64) -> (r: Option<u64>)
        ensures
            r == (if stored == 0 {
                None
            } else {
                Some(stored)
            }),
    {
        if stored == 0 {
            None
        } else {
            Some(stored)
        }
    }
}

/// A set deadline is, at any time, either still active or elapsed, never both.
pub proof fn law_deadline_active_or_elapsed(deadline: u64, now: u64)
    requires
        deadline != 0,
    ensures
        (deadline != 0 && now < deadline) != (deadline != 0 && now >= deadline),
{
}

/// The latest modification time only grows.
pub proof fn law_latest_modified_time_grows(current: u64, seen: u64)
    ensures
        (if seen != 0 && seen > current {
            seen
        } else {
            current
        }) >= current,
{
}

} // verus!
