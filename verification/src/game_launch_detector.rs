use vstd::prelude::*;

verus! {

/// How far before start-up the detector first places the last replay change, in milliseconds.
pub const INITIAL_REPLAY_LOOKBACK_MILLIS: u64 = 60000;

/// How long after the last new replay a change counts as settled, in milliseconds.
pub const REPLAY_SETTLE_DELAY_MILLIS: u64 = 15000;

/// Polls with an unchanged display time after which a game counts as ended.
pub const HALTED_DISPLAY_TIME_TICKS: u8 = 3;

/// What the detector makes of the game client's display time.
#[derive(Clone, Copy, Debug, PartialEq, Eq, Structural)]
pub enum GameLaunchStatus {
    Unknown,
    Idle,
    Started,
    Running,
    Ended,
}

/// The detector's state as plain values.
pub struct GameLaunchDetectorView {
    pub status: GameLaunchStatus,
    pub last_display_time: Option<u64>,
    pub halted_display_time_ticks: u8,
    pub last_popup_replay_count: usize,
    pub last_observed_replay_count: usize,
    pub last_replay_time: u64,
}

/// Tells when a game starts and ends from the display time that the game client reports, and
/// when a new replay has settled. Times are milliseconds on a monotonic clock.
#[derive(Clone, Copy, Debug)]
pub struct GameLaunchDetector {
    status: GameLaunchStatus,
    last_display_time: Option<u64>,
    halted_display_time_ticks: u8,
    last_popup_replay_count: usize,
    last_observed_replay_count: usize,
    last_replay_time: u64,
}

impl View for GameLaunchDetector {
    type V = GameLaunchDetectorView;

    closed spec fn view(&self) -> GameLaunchDetectorView {
        GameLaunchDetectorView {
            status: self.status,
            last_display_time: self.last_display_time,
            halted_display_time_ticks: self.halted_display_time_ticks,
            last_popup_replay_count: self.last_popup_replay_count,
            last_observed_replay_count: self.last_observed_replay_count,
            last_replay_time: self.last_replay_time,
        }
    }
}

/// The status after a display time that moved on from a first reading or went back: a game
/// that was idle or had ended stays idle; one that started stays started when `keep_started`.
pub open spec fn status_after_reset(status: GameLaunchStatus, keep_started: bool) -> GameLaunchStatus {
    match status {
        GameLaunchStatus::Idle | GameLaunchStatus::Ended => GameLaunchStatus::Idle,
        GameLaunchStatus::Started => if keep_started {
            GameLaunchStatus::Started
        } else {
            GameLaunchStatus::Running
        },
        _ => GameLaunchStatus::Running,
    }
}

/// The detector's state after it reads the display time `display_time`.
pub open spec fn display_time_step(d: GameLaunchDetectorView, display_time: u64) -> GameLaunchDetectorView {
    let (status, ticks) = match d.last_display_time {
        None => (status_after_reset(d.status, false), 0u8),
        Some(last) => if display_time > last {
            (
                match d.status {
                    GameLaunchStatus::Idle | GameLaunchStatus::Ended | GameLaunchStatus::Started => GameLaunchStatus::Started,
                    _ => GameLaunchStatus::Running,
                },
                0u8,
            )
        } else if display_time == last {
            let t: u8 = if d.halted_display_time_ticks == u8::MAX {
                u8::MAX
            } else {
                (d.halted_display_time_ticks + 1) as u8
            };
            (
                if t >= HALTED_DISPLAY_TIME_TICKS {
                    GameLaunchStatus::Ended
                } else {
                    d.status
                },
                t,
            )
        } else {
            (status_after_reset(d.status, true), 0u8)
        },
    };
    GameLaunchDetectorView {
        status,
        last_display_time: Some(display_time),
        halted_display_time_ticks: ticks,
        ..d
    }
}

/// Whether the player popup is wanted: there are player rows and the replay count differs from
/// the one at the last popup.
pub open spec fn popup_wanted(d: GameLaunchDetectorView, has_player_rows: bool, replay_count: usize) -> bool {
    has_player_rows && replay_count != d.last_popup_replay_count
}

/// The detector's state once the popup was shown for `replay_count` replays.
pub open spec fn after_popup(d: GameLaunchDetectorView, replay_count: usize) -> GameLaunchDetectorView {
    GameLaunchDetectorView { last_popup_replay_count: replay_count, status: GameLaunchStatus::Running, ..d }
}

impl GameLaunchDetector {
    /// Once the detector has read a display time, its status is known.
    #[verifier::type_invariant]
    spec fn status_known_after_reading(self) -> bool {
        self.last_display_time is Some ==> self.status != GameLaunchStatus::Unknown
    }

    /// A detector that starts at `now`, with the last replay change placed a minute earlier
    /// (or at `now` when the clock does not reach back that far).
    pub fn new(now: u64) -> (r: Self)
        ensures
            r@ == (GameLaunchDetectorView {
                status: GameLaunchStatus::Unknown,
                last_display_time: None,
                halted_display_time_ticks: 0,
                last_popup_replay_count: 0,
                last_observed_replay_count: 0,
                last_replay_time: if now >= INITIAL_REPLAY_LOOKBACK_MILLIS {
                    (now - INITIAL_REPLAY_LOOKBACK_MILLIS) as u64
                } else {
                    now
                },
            }),
    {
        GameLaunchDetector {
            status: GameLaunchStatus::Unknown,
            last_display_time: None,
            halted_display_time_ticks: 0,
            last_popup_replay_count: 0,
            last_observed_replay_count: 0,
            last_replay_time: match now.checked_sub(INITIAL_REPLAY_LOOKBACK_MILLIS) {
                Some(t) => t,
                None => now,
            },
        }
    }

    pub fn status(&self) -> (r: GameLaunchStatus)
        ensures
            r == self@.status,
    {
        self.status
    }

    /// Notes the number of replays seen at `now`; a larger count than any before is a new
    /// replay.
    pub fn observe_replay_count(&mut self, replay_count: usize, now: u64)
        ensures
            final(self)@ == (if replay_count > old(self)@.last_observed_replay_count {
                GameLaunchDetectorView {
                    last_observed_replay_count: replay_count,
                    last_replay_time: now,
                    ..old(self)@
                }
            } else {
                old(self)@
            }),
    {
        proof {
            use_type_invariant(&*self);
        }
        if replay_count > self.last_observed_replay_count {
            self.last_observed_replay_count = replay_count;
            self.last_replay_time = now;
        }
    }

    /// Whether to try the player popup: there are player rows, and the replay count differs
    /// from the one at the last popup.
    pub fn should_attempt_popup(&self, has_player_rows: bool, replay_count: usize) -> (r: bool)
        ensures
            r == popup_wanted(self@, has_player_rows, replay_count),
    {
        has_player_rows && replay_count != self.last_popup_replay_count
    }

    /// The game client reports no live game.
    pub fn observe_non_live_state(&mut self)
        ensures
            final(self)@ == (GameLaunchDetectorView {
                status: GameLaunchStatus::Idle,
                last_display_time: None,
                halted_display_time_ticks: 0,
                ..old(self)@
            }),
    {
        self.status = GameLaunchStatus::Idle;
        self.last_display_time = None;
        self.halted_display_time_ticks = 0;
    }

    /// Reads the display time the game client reports and returns the new status.
    pub fn update_display_time_status(&mut self, display_time: u64) -> (r: GameLaunchStatus)
        ensures
            final(self)@ == display_time_step(old(self)@, display_time),
            r == final(self)@.status,
            detector_reachable(old(self)@),
            r != GameLaunchStatus::Unknown,
            r == GameLaunchStatus::Ended ==> old(self)@.last_display_time == Some(display_time),
            old(self)@.last_display_time is None ==> (r == GameLaunchStatus::Idle || r == GameLaunchStatus::Running),
            (old(self)@.last_display_time is Some && display_time > old(self)@.last_display_time->0) ==> (r
                == GameLaunchStatus::Started || r == GameLaunchStatus::Running),
    {
        proof {
            use_type_invariant(&*self);
            law_display_time_status(self@, display_time, 0);
        }
        match self.last_display_time {
            None => {
                self.halted_display_time_ticks = 0;
                self.status = match self.status {
                    GameLaunchStatus::Idle | GameLaunchStatus::Ended => GameLaunchStatus::Idle,
                    _ => GameLaunchStatus::Running,
                };
            },
            Some(last_game_time) => {
                if display_time > last_game_time {
                    self.halted_display_time_ticks = 0;
                    self.status = match self.status {
                        GameLaunchStatus::Idle | GameLaunchStatus::Ended => GameLaunchStatus::Started,
                        GameLaunchStatus::Started => GameLaunchStatus::Started,
                        _ => GameLaunchStatus::Running,
                    };
                } else if display_time == last_game_time {
                    self.halted_display_time_ticks = if self.halted_display_time_ticks == u8::MAX {
                        u8::MAX
                    } else {
                        self.halted_display_time_ticks + 1
                    };
                    if self.halted_display_time_ticks >= HALTED_DISPLAY_TIME_TICKS {
                        self.status = GameLaunchStatus::Ended;
                    }
                } else {
                    self.halted_display_time_ticks = 0;
                    self.status = match self.status {
                        GameLaunchStatus::Idle | GameLaunchStatus::Ended => GameLaunchStatus::Idle,
                        GameLaunchStatus::Started => GameLaunchStatus::Started,
                        _ => GameLaunchStatus::Running,
                    };
                }
            },
        }
        self.last_display_time = Some(display_time);
        self.status
    }

    /// Whether the last new replay is at least the settle delay old at `now` (no time has
    /// passed when `now` is earlier).
    pub fn replay_change_settled(&self, now: u64) -> (r: bool)
        ensures
            r == (now >= self@.last_replay_time && now - self@.last_replay_time >= REPLAY_SETTLE_DELAY_MILLIS),
    {
        now >= self.last_replay_time && now - self.last_replay_time >= REPLAY_SETTLE_DELAY_MILLIS
    }

    /// The popup was shown for `replay_count` replays.
    pub fn record_popup_shown(&mut self, replay_count: usize)
        ensures
            final(self)@ == after_popup(old(self)@, replay_count),
    {
        proof {
            use_type_invariant(&*self);
        }
        self.last_popup_replay_count = replay_count;
        self.status = GameLaunchStatus::Running;
    }
}

/// After the popup was shown for a replay count, it is not tried again for that count.
pub proof fn law_popup_once_per_replay_count(d: GameLaunchDetectorView, replay_count: usize, has_player_rows: bool)
    ensures
        !popup_wanted(after_popup(d, replay_count), has_player_rows, replay_count),
{
}

/// Reading the same display time on four polls in a row ends a game, whatever came before.
pub proof fn law_halted_display_time_ends_game(d: GameLaunchDetectorView, display_time: u64)
    ensures
        display_time_step(
            display_time_step(display_time_step(display_time_step(d, display_time), display_time), display_time),
            display_time,
        ).status == GameLaunchStatus::Ended,
{
}

/// A display time that moves forward after a pause marks a started game, whatever the game
/// was before, unless it was running.
pub proof fn law_advancing_time_after_idle_starts(d: GameLaunchDetectorView, display_time: u64)
    requires
        d.last_display_time matches Some(last) && display_time > last,
        d.status == GameLaunchStatus::Idle || d.status == GameLaunchStatus::Ended,
    ensures
        display_time_step(d, display_time).status == GameLaunchStatus::Started,
{
}

/// Whether the detector's state is one that it can reach: once it has read a display time,
/// its status is known. A state with no reading (a new detector, or one told that no game
/// is live) is such a state.
pub open spec fn detector_reachable(d: GameLaunchDetectorView) -> bool {
    d.last_display_time is Some ==> d.status != GameLaunchStatus::Unknown
}

/// Reading a display time in a reachable state never reports `Unknown`; it reports `Ended`
/// only when the time stood still since the last reading, only `Idle` or `Running` when
/// there was no last reading, and only `Started` or `Running` when the time moved forward.
/// Reading a time and showing the popup both keep the state reachable.
pub proof fn law_display_time_status(d: GameLaunchDetectorView, display_time: u64, replay_count: usize)
    requires
        detector_reachable(d),
    ensures
        ({
            let e = display_time_step(d, display_time);
            &&& detector_reachable(e)
            &&& e.status != GameLaunchStatus::Unknown
            &&& e.status == GameLaunchStatus::Ended ==> d.last_display_time == Some(display_time)
            &&& d.last_display_time is None ==> (e.status == GameLaunchStatus::Idle || e.status
                == GameLaunchStatus::Running)
            &&& (d.last_display_time is Some && display_time > d.last_display_time->0) ==> (e.status
                == GameLaunchStatus::Started || e.status == GameLaunchStatus::Running)
        }),
        detector_reachable(after_popup(d, replay_count)),
{
}

} // verus!
