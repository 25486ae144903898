use vstd::prelude::*;

verus! {

/// Whether an overlay action worked, and the file it concerns, if any.
#[derive(Clone, Debug, Default, PartialEq, Eq)]
pub struct OverlayActionResult {
    pub ok: bool,
    pub path: Option<String>,
}

/// The answer to an overlay action.
#[derive(Clone, Debug, PartialEq, Eq)]
pub struct OverlayActionResponse {
    pub status: &'static str,
    pub result: OverlayActionResult,
    pub message: String,
}

/// Whether `r` is an answer with status `ok`, the given outcome, file and message.
pub open spec fn response_is(r: OverlayActionResponse, ok: bool, path: Option<Seq<char>>, message: Seq<char>) -> bool {
    &&& r.status@ == "ok"@
    &&& r.result.ok == ok
    &&& match (r.result.path, path) {
        (Some(p), Some(q)) => p@ == q,
        (None, None) => true,
        _ => false,
    }
    &&& r.message@ == message
}

impl OverlayActionResponse {
    pub fn success(message: String) -> (r: Self)
        ensures
            response_is(r, true, None, message@),
    {
        proof {
            reveal_strlit("ok");
        }
        Self { status: "ok", result: OverlayActionResult { ok: true, path: None }, message }
    }

    pub fn success_with_path(message: String, path: String) -> (r: Self)
        ensures
            response_is(r, true, Some(path@), message@),
    {
        proof {
            reveal_strlit("ok");
        }
        Self { status: "ok", result: OverlayActionResult { ok: true, path: Some(path) }, message }
    }

    pub fn failure(message: String) -> (r: Self)
        ensures
            response_is(r, false, None, message@),
    {
        proof {
            reveal_strlit("ok");
        }
        Self { status: "ok", result: OverlayActionResult { ok: false, path: None }, message }
    }

    pub fn failure_with_path(message: String, path: String) -> (r: Self)
        ensures
            response_is(r, false, Some(path@), message@),
    {
        proof {
            reveal_strlit("ok");
        }
        Self { status: "ok", result: OverlayActionResult { ok: false, path: Some(path) }, message }
    }
}

/// A player of the fastest game on a map.
#[derive(Clone, Debug)]
pub struct StatsFastestMapPlayer {
    pub name: String,
    pub handle: String,
    pub commander: String,
    pub apm: u64,
    pub mastery_level: u64,
    pub masteries: Vec<u64>,
    pub prestige: u64,
    pub prestige_name: String,
}

/// A unit count, or the text shown in its place when it is hidden.
#[derive(Clone, Debug)]
pub enum StatsUnitCountValue {
    Count(i64),
    Hidden(String),
}

/// Sent when an analysis run finishes.
#[derive(Clone, Debug)]
pub struct AnalysisCompletedPayload {
    pub mode: String,
    pub message: String,
}

} // verus!
