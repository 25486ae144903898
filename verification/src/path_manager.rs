use vstd::prelude::*;

use crate::text::{lower_seq, to_ascii_lowercase, str_eq};

verus! {

/// Where the app keeps its files, and which kind of build is running.
pub struct PathManagerOps;

/// Whether the app runs as a production build: the runtime mode says `production` (in any
/// letter case), or the app framework reports a release build.
pub open spec fn is_prod_spec(runtime_mode: Option<Seq<char>>, framework_dev: bool) -> bool {
    match runtime_mode {
        Some(m) => lower_seq(m) == "production"@ || !framework_dev,
        None => !framework_dev,
    }
}

/// The folder the app writes to, as path parts: in production, the local application data
/// folder (Windows) or the home folder with a hidden folder of the app's; otherwise the
/// source folder. A folder that the environment does not name is read as `./`.
pub open spec fn write_data_dir_spec(
    production: bool,
    windows: bool,
    local_app_data: Option<Seq<char>>,
    home: Option<Seq<char>>,
    manifest_dir: Option<Seq<char>>,
) -> Seq<Seq<char>> {
    let or_here = |v: Option<Seq<char>>| match v {
        Some(p) => p,
        None => "./"@,
    };
    if production {
        if windows {
            seq![or_here(local_app_data), "SC2_Coop_Info"@]
        } else {
            seq![or_here(home), ".sc2_coop_info"@]
        }
    } else {
        seq![or_here(manifest_dir)]
    }
}

pub open spec fn parts(v: Seq<String>) -> Seq<Seq<char>> {
    v.map_values(|s: String| s@)
}

fn text_or_here(v: Option<String>) -> (r: String)
    ensures
        r@ == match v {
            Some(p) => p@,
            None => "./"@,
        },
{
    match v {
        Some(p) => p,
        None => String::from_str("./"),
    }
}

fn joined(base: Vec<String>, more: &[&str]) -> (r: Vec<String>)
    ensures
        parts(r@) == parts(base@) + more@.map_values(|s: &str| s@),
{
    let mut out = base;
    let ghost start = parts(out@);
    for i in 0..more.len()
        invariant
            parts(out@) == start + more@.take(i as int).map_values(|s: &str| s@),
    {
        let ghost before = out@;
        out.push(String::from_str(more[i]));
        proof {
            assert(more@.take(i + 1) =~= more@.take(i as int).push(more@[i as int]));
            assert(parts(out@) =~= parts(before).push(more@[i as int]@));
            assert(more@.take(i + 1).map_values(|s: &str| s@) =~= more@.take(i as int).map_values(|s: &str| s@).push(
                more@[i as int]@,
            ));
        }
    }
    proof {
        assert(more@.take(more@.len() as int) =~= more@);
    }
    out
}

impl PathManagerOps {
    /// Whether this is a production build, given the runtime mode from the environment and
    /// whether the app framework reports a development build.
    pub fn is_prod_env(runtime_mode: Option<&str>, framework_dev: bool) -> (r: bool)
        ensures
            r == is_prod_spec(
                match runtime_mode {
                    Some(m) => Some(m@),
                    None => None,
                },
                framework_dev,
            ),
    {
        if let Some(mode) = runtime_mode {
            if str_eq(to_ascii_lowercase(mode).as_str(), "production") {
                return true;
            }
        }
        !framework_dev
    }

    /// Whether this is a development build.
    pub fn is_dev_env(runtime_mode: Option<&str>, framework_dev: bool) -> (r: bool)
        ensures
            r == !is_prod_spec(
                match runtime_mode {
                    Some(m) => Some(m@),
                    None => None,
                },
                framework_dev,
            ),
    {
        !Self::is_prod_env(runtime_mode, framework_dev)
    }

    /// The folder the app writes to, as path parts.
    pub fn write_data_dir(
        production: bool,
        windows: bool,
        local_app_data: Option<String>,
        home: Option<String>,
        manifest_dir: Option<String>,
    ) -> (r: Vec<String>)
        ensures
            parts(r@) == write_data_dir_spec(
                production,
                windows,
                match local_app_data {
                    Some(p) => Some(p@),
                    None => None,
                },
                match home {
                    Some(p) => Some(p@),
                    None => None,
                },
                match manifest_dir {
                    Some(p) => Some(p@),
                    None => None,
                },
            ),
    {
        let mut out: Vec<String> = Vec::new();
        if production {
            if windows {
                out.push(text_or_here(local_app_data));
                out.push(String::from_str("SC2_Coop_Info"));
            } else {
                out.push(text_or_here(home));
                out.push(String::from_str(".sc2_coop_info"));
            }
        } else {
            out.push(text_or_here(manifest_dir));
        }
        proof {
            assert(parts(out@) =~= write_data_dir_spec(
                production,
                windows,
                match local_app_data {
                    Some(p) => Some(p@),
                    None => None,
                },
                match home {
                    Some(p) => Some(p@),
                    None => None,
                },
                match manifest_dir {
                    Some(p) => Some(p@),
                    None => None,
                },
            ));
        }
        out
    }

    /// The settings file, inside the data folder.
    pub fn get_settings_path(data_dir: Vec<String>) -> (r: Vec<String>)
        ensures
            parts(r@) == parts(data_dir@).push("settings.json"@),
    {
        let r = joined(data_dir, &["settings.json"]);
        assert(parts(r@) =~= parts(data_dir@).push("settings.json"@));
        r
    }

    /// The statistics cache, in the data folder's `generated` folder.
    pub fn get_cache_path(data_dir: Vec<String>) -> (r: Vec<String>)
        ensures
            parts(r@) == parts(data_dir@).push("generated"@).push("cache_overall_stats.json"@),
    {
        let r = joined(data_dir, &["generated", "cache_overall_stats.json"]);
        assert(parts(r@) =~= parts(data_dir@).push("generated"@).push("cache_overall_stats.json"@));
        r
    }

    /// The readable copy of the statistics cache, beside it.
    pub fn get_pretty_cache_path(data_dir: Vec<String>) -> (r: Vec<String>)
        ensures
            parts(r@) == parts(data_dir@).push("generated"@).push("cache_overall_stats_pretty.json"@),
    {
        let r = joined(data_dir, &["generated", "cache_overall_stats_pretty.json"]);
        assert(parts(r@) =~= parts(data_dir@).push("generated"@).push("cache_overall_stats_pretty.json"@));
        r
    }

    /// The log file, inside the data folder.
    pub fn get_log_path(data_dir: Vec<String>) -> (r: Vec<String>)
        ensures
            parts(r@) == parts(data_dir@).push("logs.txt"@),
    {
        let r = joined(data_dir, &["logs.txt"]);
        assert(parts(r@) =~= parts(data_dir@).push("logs.txt"@));
        r
    }
}

} // verus!
