use vstd::prelude::*;

use crate::text::{lower_seq, to_ascii_lowercase, trim, trim_seq, str_eq};

verus! {

/// A window's place on the screen; never empty.
#[derive(Clone, Copy, Debug, PartialEq, Eq, Structural)]
pub struct ActiveWindowRect {
    x: i32,
    y: i32,
    width: u32,
    height: u32,
}

impl ActiveWindowRect {
    pub closed spec fn parts(self) -> (i32, i32, u32, u32) {
        (self.x, self.y, self.width, self.height)
    }

    /// A rectangle, unless it has no width or no height.
    pub fn new(x: i32, y: i32, width: u32, height: u32) -> (r: Option<Self>)
        ensures
            width == 0 || height == 0 ==> r is None,
            width > 0 && height > 0 ==> (r matches Some(rect) && rect.parts() == (x, y, width, height)),
    {
        if width == 0 || height == 0 {
            return None;
        }
        Some(Self { x, y, width, height })
    }

    pub fn x(&self) -> (r: i32)
        ensures
            r == self.parts().0,
    {
        self.x
    }

    pub fn y(&self) -> (r: i32)
        ensures
            r == self.parts().1,
    {
        self.y
    }

    pub fn width(&self) -> (r: u32)
        ensures
            r == self.parts().2,
    {
        self.width
    }

    pub fn height(&self) -> (r: u32)
        ensures
            r == self.parts().3,
    {
        self.height
    }
}

/// Whether an application name and window title are those of the game client: compared
/// trimmed and in lower case with the client's executable and bundle names and its title.
pub open spec fn is_sc2_identity_spec(app_name: Seq<char>, title: Seq<char>) -> bool {
    let a = lower_seq(trim_seq(app_name));
    let t = lower_seq(trim_seq(title));
    ||| a == "sc2.exe"@
    ||| a == "sc2_x64.exe"@
    ||| a == "starcraft ii.exe"@
    ||| a == "starcraft ii"@
    ||| a == "com.blizzard.starcraft2"@
    ||| t == "com.blizzard.starcraft2"@
    ||| t == "starcraft ii"@
}

/// The focused window: its application, title and place.
#[derive(Clone, Debug)]
pub struct ActiveWindowInfo {
    application_name: String,
    title: String,
    rect: Option<ActiveWindowRect>,
}

impl ActiveWindowInfo {
    pub closed spec fn application_name_view(self) -> Seq<char> {
        self.application_name@
    }

    pub closed spec fn title_view(self) -> Seq<char> {
        self.title@
    }

    pub closed spec fn rect_view(self) -> Option<ActiveWindowRect> {
        self.rect
    }

    /// Whether this is the game client's window.
    pub open spec fn is_sc2_spec(self) -> bool {
        is_sc2_identity_spec(self.application_name_view(), self.title_view())
    }

    pub fn new(application_name: String, title: String) -> (r: Self)
        ensures
            r.application_name_view() == application_name@,
            r.title_view() == title@,
            r.rect_view() is None,
    {
        Self::new_with_rect(application_name, title, None)
    }

    pub fn new_with_rect(application_name: String, title: String, rect: Option<ActiveWindowRect>) -> (r: Self)
        ensures
            r.application_name_view() == application_name@,
            r.title_view() == title@,
            r.rect_view() == rect,
    {
        Self { application_name, title, rect }
    }

    pub fn application_name(&self) -> (r: &str)
        ensures
            r@ == self.application_name_view(),
    {
        self.application_name.as_str()
    }

    pub fn title(&self) -> (r: &str)
        ensures
            r@ == self.title_view(),
    {
        self.title.as_str()
    }

    pub fn rect(&self) -> (r: Option<ActiveWindowRect>)
        ensures
            r == self.rect_view(),
    {
        self.rect
    }

    pub fn is_sc2_window(&self) -> (r: bool)
        ensures
            r == self.is_sc2_spec(),
    {
        ActiveWindowDetector::is_sc2_window_identity(self.application_name.as_str(), self.title.as_str())
    }
}

/// A window as the window system lists it, before the focused one is picked.
pub struct PlatformWindow {
    pub app_name: Option<String>,
    pub title: Option<String>,
    pub is_focused: Option<bool>,
    pub is_minimized: Option<bool>,
    pub rect: Option<ActiveWindowRect>,
}

/// Whether a listed window counts as focused: it is known to be focused and known not to be
/// minimized.
pub open spec fn window_counts_as_focused(w: PlatformWindow) -> bool {
    w.is_focused == Some(true) && w.is_minimized == Some(false)
}

/// A text the window system may not have given, read as empty then.
pub open spec fn text_or_empty(t: Option<String>) -> Seq<char> {
    match t {
        Some(s) => s@,
        None => Seq::empty(),
    }
}

/// The first of `windows` that counts as focused.
pub open spec fn first_focused(windows: Seq<PlatformWindow>) -> Option<int>
    decreases windows.len(),
{
    if windows.len() == 0 {
        None
    } else if window_counts_as_focused(windows[0]) {
        Some(0)
    } else {
        match first_focused(windows.drop_first()) {
            Some(j) => Some(j + 1),
            None => None,
        }
    }
}

proof fn lemma_first_focused_prefix(windows: Seq<PlatformWindow>, i: int)
    requires
        0 <= i <= windows.len(),
        forall|j: int| 0 <= j < i ==> !window_counts_as_focused(#[trigger] windows[j]),
    ensures
        i < windows.len() && window_counts_as_focused(windows[i]) ==> first_focused(windows) == Some(i),
        i == windows.len() ==> first_focused(windows) is None,
    decreases i,
{
    if i > 0 {
        assert forall|j: int| 0 <= j < i - 1 implies !window_counts_as_focused(#[trigger] windows.drop_first()[j]) by {
            assert(windows.drop_first()[j] == windows[j + 1]);
        }
        lemma_first_focused_prefix(windows.drop_first(), i - 1);
        if i < windows.len() {
            assert(windows.drop_first()[i - 1] == windows[i]);
        }
    }
}

pub struct PlatformActiveWindowDetector;

impl PlatformActiveWindowDetector {
    /// The focused window among those the window system lists: the first that is focused and
    /// not minimized, with a missing name or title read as empty.
    pub fn focused_window_info(windows: Vec<PlatformWindow>) -> (r: Option<ActiveWindowInfo>)
        ensures
            match first_focused(windows@) {
                Some(j) => (r matches Some(info) && info.application_name_view() == text_or_empty(
                    windows@[j].app_name,
                ) && info.title_view() == text_or_empty(windows@[j].title) && info.rect_view() == windows@[j].rect),
                None => r is None,
            },
    {
        let ghost all = windows@;
        let mut rest = windows;
        let mut i: usize = 0;
        let total: usize = rest.len();
        while rest.len() > 0
            invariant
                all == windows@,
                all.len() == total,
                i + rest@.len() == all.len(),
                rest@ == all.subrange(i as int, all.len() as int),
                forall|j: int| 0 <= j < i ==> !window_counts_as_focused(#[trigger] all[j]),
            decreases rest@.len(),
        {
            let ghost before = rest@;
            let w = rest.remove(0);
            proof {
                assert(w == all[i as int]);
                assert(rest@ =~= all.subrange(i + 1, all.len() as int));
            }
            let focused = match w.is_focused {
                Some(f) => f,
                None => false,
            };
            let minimized = match w.is_minimized {
                Some(m) => m,
                None => true,
            };
            if focused && !minimized {
                proof {
                    lemma_first_focused_prefix(all, i as int);
                }
                let app_name = match w.app_name {
                    Some(s) => s,
                    None => String::new(),
                };
                let title = match w.title {
                    Some(s) => s,
                    None => String::new(),
                };
                return Some(ActiveWindowInfo::new_with_rect(app_name, title, w.rect));
            }
            i = i + 1;
        }
        proof {
            lemma_first_focused_prefix(all, i as int);
        }
        None
    }

    /// What the focus listener does when it reads `focused` after `previous`: the state it keeps
    /// and whether it reports the reading (only when it changed).
    pub fn focus_listener_step(previous: Option<bool>, focused: bool) -> (r: (Option<bool>, bool))
        ensures
            r.1 == (previous != Some(focused)),
            r.0 == Some(focused),
    {
        let changed = match previous {
            Some(p) => p != focused,
            None => true,
        };
        (Some(focused), changed)
    }
}

pub struct ActiveWindowDetector;

impl ActiveWindowDetector {
    /// Whether the focused window, as read, is the game client's.
    pub fn focused_window_is_sc2(focused: Result<Option<ActiveWindowInfo>, String>) -> (r: Result<bool, String>)
        ensures
            match focused {
                Ok(Some(info)) => r == Ok::<bool, String>(info.is_sc2_spec()),
                Ok(None) => r == Ok::<bool, String>(false),
                Err(e) => (r matches Err(m) && m@ == e@),
            },
    {
        match focused {
            Ok(Some(info)) => Ok(info.is_sc2_window()),
            Ok(None) => Ok(false),
            Err(e) => Err(e),
        }
    }

    /// The focused window, as read, when it is the game client's.
    pub fn focused_sc2_window_info(focused: Result<Option<ActiveWindowInfo>, String>) -> (r: Result<
        Option<ActiveWindowInfo>,
        String,
    >)
        ensures
            match focused {
                Ok(Some(info)) => if info.is_sc2_spec() {
                    (r matches Ok(Some(i)) && i == info)
                } else {
                    r matches Ok(None)
                },
                Ok(None) => r matches Ok(None),
                Err(e) => (r matches Err(m) && m@ == e@),
            },
    {
        match focused {
            Ok(Some(info)) => {
                if info.is_sc2_window() {
                    Ok(Some(info))
                } else {
                    Ok(None)
                }
            },
            Ok(None) => Ok(None),
            Err(e) => Err(e),
        }
    }

    /// Whether an application name and window title are the game client's.
    pub fn is_sc2_window_identity(app_name: &str, title: &str) -> (r: bool)
        ensures
            r == is_sc2_identity_spec(app_name@, title@),
    {
        let a = to_ascii_lowercase(trim(app_name).as_str());
        let t = to_ascii_lowercase(trim(title).as_str());
        str_eq(a.as_str(), "sc2.exe") || str_eq(a.as_str(), "sc2_x64.exe") || str_eq(a.as_str(), "starcraft ii.exe")
            || str_eq(a.as_str(), "starcraft ii") || str_eq(a.as_str(), "com.blizzard.starcraft2") || str_eq(
            t.as_str(),
            "com.blizzard.starcraft2",
        ) || str_eq(t.as_str(), "starcraft ii")
    }
}

} // verus!
