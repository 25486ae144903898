use vstd::prelude::*;

use crate::text::{decimal_seq, push_decimal, string_from_chars};

verus! {

/// Size past which the log file is rotated, in bytes.
pub const MAX_LOG_FILE_BYTES: u64 = 104857600;

/// Number of log files kept: the current one and its archives.
pub const MAX_ROLLING_LOG_FILES: usize = 3;

/// The severity of a log record.
#[derive(Clone, Copy, Debug, PartialEq, Eq, Structural)]
pub enum LogLevel {
    Error,
    Warn,
    Info,
    Debug,
    Trace,
}

/// The name a log level is written with.
pub open spec fn level_name(level: LogLevel) -> Seq<char> {
    match level {
        LogLevel::Error => "ERROR"@,
        LogLevel::Warn => "WARN"@,
        LogLevel::Info => "INFO"@,
        LogLevel::Debug => "DEBUG"@,
        LogLevel::Trace => "TRACE"@,
    }
}

impl LogLevel {
    /// The name this level is written with.
    pub fn as_str(&self) -> (r: &'static str)
        ensures
            r@ == level_name(*self),
    {
        match self {
            LogLevel::Error => "ERROR",
            LogLevel::Warn => "WARN",
            LogLevel::Info => "INFO",
            LogLevel::Debug => "DEBUG",
            LogLevel::Trace => "TRACE",
        }
    }
}

/// `n` spaces.
pub open spec fn spaces(n: nat) -> Seq<char> {
    Seq::new(n, |i: int| ' ')
}

/// `s` padded on the right with spaces to at least `width` characters.
pub open spec fn pad_right(s: Seq<char>, width: nat) -> Seq<char> {
    if s.len() < width {
        s + spaces((width - s.len()) as nat)
    } else {
        s
    }
}

/// `n` in decimal, with a leading zero when it has one digit.
pub open spec fn two_digits(n: nat) -> Seq<char> {
    if n < 10 {
        seq!['0'] + decimal_seq(n)
    } else {
        decimal_seq(n)
    }
}

/// A clock time as `hh:mm:ss`.
pub open spec fn display_time_spec(hour: u32, minute: u32, second: u32) -> Seq<char> {
    two_digits(hour as nat) + seq![':'] + two_digits(minute as nat) + seq![':'] + two_digits(second as nat)
}

/// One line of the log file: time stamp, level padded to five characters, target and message.
pub open spec fn record_line_spec(timestamp: Seq<char>, level: LogLevel, target: Seq<char>, message: Seq<char>) -> Seq<
    char,
> {
    timestamp + seq![' '] + pad_right(level_name(level), 5) + seq![' '] + target + " - "@ + message
}

/// The bytes a line adds to the log file: the text and its line break.
pub open spec fn incoming_bytes_spec(message_bytes: usize) -> int {
    if message_bytes as int >= u64::MAX {
        u64::MAX as int
    } else {
        message_bytes + 1
    }
}

/// Whether a log file of `current_size` bytes must be rotated before `incoming_bytes` more
/// are written.
pub open spec fn needs_rotation_spec(current_size: u64, incoming_bytes: u64) -> bool {
    (if current_size + incoming_bytes > u64::MAX {
        u64::MAX as int
    } else {
        current_size + incoming_bytes
    }) > MAX_LOG_FILE_BYTES
}

/// The renames of a rotation, oldest first: archive `i` moves to `i + 1`, for `i` from the
/// second-newest archive down to the current file (`0`).
pub open spec fn rotation_renames_spec(max_files: usize) -> Seq<(usize, usize)> {
    Seq::new(
        (if max_files >= 2 {
            max_files - 1
        } else {
            0
        }) as nat,
        |k: int| ((max_files - 2 - k) as usize, (max_files - 1 - k) as usize),
    )
}

pub struct LoggingOps;

fn push_str(out: &mut Vec<char>, s: &str)
    ensures
        final(out)@ == old(out)@ + s@,
{
    let mut i: usize = 0;
    let chars = crate::text::chars_of(s);
    while i < chars.len()
        invariant
            i <= chars@.len(),
            chars@ == s@,
            out@ == old(out)@ + chars@.take(i as int),
        decreases chars@.len() - i,
    {
        out.push(chars[i]);
        proof {
            assert(chars@.take(i + 1) =~= chars@.take(i as int).push(chars@[i as int]));
        }
        i = i + 1;
    }
    proof {
        assert(chars@.take(i as int) =~= chars@);
    }
}

fn push_two_digits(out: &mut Vec<char>, n: u32)
    ensures
        final(out)@ == old(out)@ + two_digits(n as nat),
{
    if n < 10 {
        out.push('0');
        push_decimal(out, n as u64);
        proof {
            assert(old(out)@.push('0') + decimal_seq(n as nat) =~= old(out)@ + two_digits(n as nat));
        }
    } else {
        push_decimal(out, n as u64);
    }
}

impl LoggingOps {
    pub fn max_log_file_bytes() -> (r: u64)
        ensures
            r == MAX_LOG_FILE_BYTES,
    {
        MAX_LOG_FILE_BYTES
    }

    pub fn max_rolling_log_files() -> (r: usize)
        ensures
            r == MAX_ROLLING_LOG_FILES,
    {
        MAX_ROLLING_LOG_FILES
    }

    /// The log filter: everything in development, information and above otherwise.
    pub fn default_filter_directive_for(development_environment: bool) -> (r: &'static str)
        ensures
            r@ == (if development_environment {
                "trace"@
            } else {
                "info"@
            }),
    {
        if development_environment {
            "trace"
        } else {
            "info"
        }
    }

    pub fn default_log_style_directive() -> (r: &'static str)
        ensures
            r@ == "always"@,
    {
        "always"
    }

    /// A clock time as `hh:mm:ss`, each part at least two digits.
    pub fn format_display_time(hour: u32, minute: u32, second: u32) -> (r: String)
        ensures
            r@ == display_time_spec(hour, minute, second),
    {
        let mut out: Vec<char> = Vec::new();
        push_two_digits(&mut out, hour);
        out.push(':');
        push_two_digits(&mut out, minute);
        out.push(':');
        push_two_digits(&mut out, second);
        proof {
            assert(out@ =~= display_time_spec(hour, minute, second));
        }
        string_from_chars(&out)
    }

    /// One line of the log file.
    pub fn format_record_line(timestamp: &str, level: LogLevel, target: &str, message: &str) -> (r: String)
        ensures
            r@ == record_line_spec(timestamp@, level, target@, message@),
    {
        let mut out: Vec<char> = Vec::new();
        push_str(&mut out, timestamp);
        out.push(' ');
        let name = level.as_str();
        push_str(&mut out, name);
        let ghost before_pad = out@;
        let mut k: usize = name.unicode_len();
        while k < 5
            invariant
                k <= 5 || k == name@.len(),
                name@.len() <= k,
                out@ == before_pad + spaces((k - name@.len()) as nat),
            decreases 5 - k,
        {
            out.push(' ');
            proof {
                assert(before_pad + spaces((k + 1 - name@.len()) as nat) =~= (before_pad + spaces(
                    (k - name@.len()) as nat,
                )).push(' '));
            }
            k = k + 1;
        }
        proof {
            if name@.len() >= 5 {
                assert(before_pad + spaces(0) =~= before_pad);
            }
        }
        out.push(' ');
        push_str(&mut out, target);
        push_str(&mut out, " - ");
        push_str(&mut out, message);
        proof {
            assert(out@ =~= record_line_spec(timestamp@, level, target@, message@));
        }
        string_from_chars(&out)
    }

    /// The bytes a line of `message_bytes` bytes adds to the log file, with its line break.
    pub fn incoming_bytes(message_bytes: usize) -> (r: u64)
        ensures
            r == incoming_bytes_spec(message_bytes),
    {
        let m: u64 = if message_bytes as u128 >= u64::MAX as u128 {
            u64::MAX
        } else {
            message_bytes as u64
        };
        if m == u64::MAX {
            u64::MAX
        } else {
            m + 1
        }
    }

    /// Whether the log file must be rotated before the next line is written.
    pub fn needs_rotation(current_size: u64, incoming_bytes: u64) -> (r: bool)
        ensures
            r == needs_rotation_spec(current_size, incoming_bytes),
    {
        let total = match current_size.checked_add(incoming_bytes) {
            Some(t) => t,
            None => u64::MAX,
        };
        total > MAX_LOG_FILE_BYTES
    }

    /// The renames of one rotation of `max_files` log files, in the order they are made.
    pub fn rotation_renames(max_files: usize) -> (r: Vec<(usize, usize)>)
        ensures
            r@ == rotation_renames_spec(max_files),
    {
        let mut out: Vec<(usize, usize)> = Vec::new();
        if max_files < 2 {
            assert(out@ =~= rotation_renames_spec(max_files));
            return out;
        }
        let mut target: usize = max_files - 1;
        while target > 0
            invariant
                max_files >= 2,
                target <= max_files - 1,
                out@ =~= rotation_renames_spec(max_files).take((max_files - 1 - target) as int),
            decreases target,
        {
            out.push((target - 1, target));
            proof {
                assert(rotation_renames_spec(max_files).take((max_files - target) as int) =~= rotation_renames_spec(
                    max_files,
                ).take((max_files - 1 - target) as int).push(((target - 1) as usize, target)));
            }
            target = target - 1;
        }
        proof {
            assert(rotation_renames_spec(max_files).take((max_files - 1) as int) =~= rotation_renames_spec(max_files));
        }
        out
    }
}


proof fn lemma_two_digits_len(n: nat)
    requires
        n < 100,
    ensures
        two_digits(n).len() == 2,
{
    if n >= 10 {
        assert(decimal_seq(n) == decimal_seq(n / 10).push(crate::text::digit_char(n % 10)));
        assert(decimal_seq(n / 10).len() == 1);
    }
}

/// A clock time with parts below 100 is written in eight characters, `hh:mm:ss`.
pub proof fn law_display_time_width(hour: u32, minute: u32, second: u32)
    requires
        hour < 100,
        minute < 100,
        second < 100,
    ensures
        display_time_spec(hour, minute, second).len() == 8,
        display_time_spec(hour, minute, second)[2] == ':',
        display_time_spec(hour, minute, second)[5] == ':',
{
    lemma_two_digits_len(hour as nat);
    lemma_two_digits_len(minute as nat);
    lemma_two_digits_len(second as nat);
}

/// The level column of a log line is always five characters wide.
pub proof fn law_level_column_width(level: LogLevel)
    ensures
        pad_right(level_name(level), 5).len() == 5,
{
    reveal_strlit("ERROR");
    reveal_strlit("WARN");
    reveal_strlit("INFO");
    reveal_strlit("DEBUG");
    reveal_strlit("TRACE");
}

/// A file of at most the size limit that takes no more bytes is not rotated; a file that would
/// pass the limit is.
pub proof fn law_rotation_threshold(current_size: u64, incoming_bytes: u64)
    ensures
        needs_rotation_spec(current_size, incoming_bytes) == (current_size + incoming_bytes > MAX_LOG_FILE_BYTES),
{
}

/// The file name of log archive `index` (the current file for 0, and then no new name), given
/// the current file's name, stem and extension as the path gives them: the stem (or the whole
/// name when there is none), `.` and the index, then `.` and the extension when there is one.
pub open spec fn rolling_name_spec(file_name: Option<Seq<char>>, stem: Option<Seq<char>>, extension: Option<Seq<char>>, index: usize) -> Option<Seq<char>> {
    if index == 0 {
        None
    } else {
        match file_name {
            None => None,
            Some(name) => Some(
                match stem {
                    Some(s) => s,
                    None => name,
                } + "."@ + decimal_seq(index as nat) + match extension {
                    Some(e) => "."@ + e,
                    None => Seq::empty(),
                },
            ),
        }
    }
}

impl LoggingOps {
    /// The file name of log archive `index` (see [`rolling_name_spec`]); nothing when the
    /// path is to be kept as it is.
    pub fn rolling_log_file_name(file_name: Option<&str>, stem: Option<&str>, extension: Option<&str>, index: usize) -> (r: Option<String>)
        ensures
            match r {
                Some(n) => rolling_name_spec(
                    match file_name {
                        Some(f) => Some(f@),
                        None => None,
                    },
                    match stem {
                        Some(s) => Some(s@),
                        None => None,
                    },
                    match extension {
                        Some(e) => Some(e@),
                        None => None,
                    },
                    index,
                ) == Some(n@),
                None => rolling_name_spec(
                    match file_name {
                        Some(f) => Some(f@),
                        None => None,
                    },
                    match stem {
                        Some(s) => Some(s@),
                        None => None,
                    },
                    match extension {
                        Some(e) => Some(e@),
                        None => None,
                    },
                    index,
                ) is None,
            },
    {
        if index == 0 {
            return None;
        }
        let name = match file_name {
            Some(n) => n,
            None => {
                return None;
            },
        };
        let mut out: Vec<char> = Vec::new();
        match stem {
            Some(s) => push_str(&mut out, s),
            None => push_str(&mut out, name),
        }
        push_str(&mut out, ".");
        push_decimal(&mut out, index as u64);
        match extension {
            Some(e) => {
                push_str(&mut out, ".");
                push_str(&mut out, e);
            },
            None => {},
        }
        proof {
            reveal_strlit(".");
        }
        Some(string_from_chars(&out))
    }
}

} // verus!
