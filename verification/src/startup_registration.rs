use vstd::prelude::*;

use crate::app_settings::AppSettingsOps;
use crate::db_core::signed_decimal;

verus! {

/// The registry key that starts programs at sign-in.
pub const WINDOWS_RUN_KEY: &'static str = "HKCU\\Software\\Microsoft\\Windows\\CurrentVersion\\Run";

/// The value name the overlay registers itself under.
pub const WINDOWS_STARTUP_VALUE_NAME: &'static str = "SCO Overlay";

/// The arguments of `reg` that add (with the command to run) or delete the startup entry.
pub open spec fn startup_registration_args_spec(enabled: bool, command_value: Seq<char>) -> Seq<Seq<char>> {
    if enabled {
        seq!["add"@, WINDOWS_RUN_KEY@, "/v"@, WINDOWS_STARTUP_VALUE_NAME@, "/t"@, "REG_SZ"@, "/d"@, command_value, "/f"@]
    } else {
        seq!["delete"@, WINDOWS_RUN_KEY@, "/v"@, WINDOWS_STARTUP_VALUE_NAME@, "/f"@]
    }
}

/// The exit code as text: its number, or `unknown` when there is none.
pub open spec fn exit_code_text(code: Option<i32>) -> Seq<char> {
    match code {
        Some(c) => signed_decimal(c as int),
        None => "unknown"@,
    }
}

/// Whether `reg` did what was asked: it succeeded, or, when deleting, found no entry (code 1).
pub open spec fn startup_registration_ok(enabled: bool, success: bool, code: Option<i32>) -> bool {
    success || (!enabled && code == Some(1i32))
}

fn push_arg(out: &mut Vec<String>, s: &str)
    ensures
        final(out)@.map_values(|a: String| a@) == old(out)@.map_values(|a: String| a@).push(s@),
{
    let ghost before = out@;
    out.push(String::from_str(s));
    proof {
        assert(out@.map_values(|a: String| a@) =~= before.map_values(|a: String| a@).push(s@));
    }
}

impl AppSettingsOps {
    /// The `reg` arguments that make Windows start the overlay at sign-in, or stop doing so.
    pub fn startup_registration_args(enabled: bool, command_value: &str) -> (r: Vec<String>)
        ensures
            r@.map_values(|a: String| a@) == startup_registration_args_spec(enabled, command_value@),
    {
        let mut out: Vec<String> = Vec::new();
        proof {
            assert(out@.map_values(|a: String| a@) =~= Seq::<Seq<char>>::empty());
        }
        if enabled {
            push_arg(&mut out, "add");
            push_arg(&mut out, WINDOWS_RUN_KEY);
            push_arg(&mut out, "/v");
            push_arg(&mut out, WINDOWS_STARTUP_VALUE_NAME);
            push_arg(&mut out, "/t");
            push_arg(&mut out, "REG_SZ");
            push_arg(&mut out, "/d");
            push_arg(&mut out, command_value);
            push_arg(&mut out, "/f");
        } else {
            push_arg(&mut out, "delete");
            push_arg(&mut out, WINDOWS_RUN_KEY);
            push_arg(&mut out, "/v");
            push_arg(&mut out, WINDOWS_STARTUP_VALUE_NAME);
            push_arg(&mut out, "/f");
        }
        proof {
            assert(out@.map_values(|a: String| a@) =~= startup_registration_args_spec(enabled, command_value@));
        }
        out
    }

    /// What a run of `reg` comes to: done (see [`startup_registration_ok`]), or an error
    /// naming the command and its exit code.
    pub fn startup_registration_outcome(enabled: bool, success: bool, code: Option<i32>) -> (r: Result<(), String>)
        ensures
            startup_registration_ok(enabled, success, code) ==> r is Ok,
            !startup_registration_ok(enabled, success, code) ==> (r matches Err(e) && e@ == (if enabled {
                "reg add exited with status "@
            } else {
                "reg delete exited with status "@
            }) + exit_code_text(code)),
    {
        if success || (!enabled && code == Some(1i32)) {
            return Ok(());
        }
        let mut m = if enabled {
            String::from_str("reg add exited with status ")
        } else {
            String::from_str("reg delete exited with status ")
        };
        match code {
            Some(c) => {
                let mut t = String::new();
                crate::db_core::push_signed(&mut t, c);
                proof {
                    assert(t@ == signed_decimal(c as int));
                }
                m.append(t.as_str());
            },
            None => {
                proof {
                    reveal_strlit("unknown");
                }
                m.append("unknown");
            },
        }
        Err(m)
    }
}

} // verus!
