//! The launch pipeline's decision core. Each configured application goes
//! through launch, monitor resolution, rectangle computation, window
//! search and positioning; every step can fail, and every failure stays
//! local to that application. The decisions live here as a state machine:
//! the embedding loop performs the outside work (starting the process,
//! waiting, enumerating windows, moving the window) and reports each
//! result as an event.

use vstd::prelude::*;
use crate::config::Application;
use crate::monitor::{
    MonitorInfo, calculate_window_position, get_monitor_by_number, placement_x, rect_wf,
};
use crate::strings::str_eq;
use crate::window::{WindowInfo, find_window_by_title, first_match_hwnd};

verus! {

/// How one application's pass through the launch pipeline ended.
#[derive(Clone, Copy, Debug, PartialEq, Eq, Structural)]
pub enum AppOutcome {
    /// The process could not be started; nothing further was tried.
    LaunchFailed,
    /// The configured display slot named no monitor of this run's list.
    MonitorNotFound,
    /// No window title matched the application's search token.
    WindowNotFound,
    /// The platform refused to move the window.
    PlacementFailed,
    /// The window was moved to its computed rectangle.
    Positioned,
}

/// Where one application stands in the launch pipeline. Each variant but
/// the last names the outside work the embedding loop owes next.
#[derive(Clone, Copy, Debug, PartialEq, Eq, Structural)]
pub enum PlacementState {
    /// Start the executable, wait for it to create its window, and report
    /// whether the launch was accepted.
    Launching,
    /// Enumerate the top-level windows and report what was seen. The
    /// target rectangle is already fixed.
    Searching { x: i32, y: i32, width: i32, height: i32 },
    /// Ask the platform to move window `hwnd` to the rectangle, without
    /// changing its stacking order, and report whether it obliged.
    Positioning { hwnd: usize, x: i32, y: i32, width: i32, height: i32 },
    /// The pass is over.
    Done { outcome: AppOutcome },
}

/// What the embedding loop observed while doing the work a state asked for.
#[derive(Clone, Debug)]
pub enum PlacementEvent {
    /// Whether the process launcher accepted the executable.
    LaunchResult { ok: bool },
    /// One full enumeration pass over the top-level windows.
    WindowsSeen { windows: Vec<WindowInfo> },
    /// Whether the platform moved the window.
    PositionResult { ok: bool },
}

/// The search token for an application name: a small static table maps the
/// known application names to their window-title tokens, and the name
/// itself is the fallback token.
pub open spec fn search_token_spec(name: Seq<char>) -> Seq<char> {
    if name == "Teams"@ {
        "teams"@
    } else if name == "Outlook"@ {
        "outlook"@
    } else if name == "Slack"@ {
        "slack"@
    } else if name == "Notion"@ {
        "notion"@
    } else {
        name
    }
}

/// Looks an application name up in the static name-to-token table; the
/// name itself is the fallback.
pub fn search_token_for(name: &str) -> (t: String)
    ensures
        t@ == search_token_spec(name@),
{
    if str_eq(name, "Teams") {
        "teams".to_owned()
    } else if str_eq(name, "Outlook") {
        "outlook".to_owned()
    } else if str_eq(name, "Slack") {
        "slack".to_owned()
    } else if str_eq(name, "Notion") {
        "notion".to_owned()
    } else {
        name.to_owned()
    }
}

/// Which event answers which state: a finished pass takes no event at all.
pub open spec fn event_answers(state: PlacementState, event: PlacementEvent) -> bool {
    match state {
        PlacementState::Launching => event is LaunchResult,
        PlacementState::Searching { .. } => event is WindowsSeen,
        PlacementState::Positioning { .. } => event is PositionResult,
        PlacementState::Done { .. } => false,
    }
}

/// The launch pipeline's transition relation, one application at a time.
/// A failed launch ends the pass at once. After a successful launch the
/// configured display slot is resolved against the monitor list — slot `k`
/// names the `k`-th enumerated monitor — and the target rectangle is the
/// requested half of that monitor's work area. The window search takes the
/// first window, in enumeration order, whose title contains the
/// application's search token case-insensitively. Positioning ends the
/// pass with success or failure as the platform reported it.
pub open spec fn next_state(
    monitors: Seq<MonitorInfo>,
    app: Application,
    state: PlacementState,
    event: PlacementEvent,
) -> PlacementState {
    match (state, event) {
        (PlacementState::Launching, PlacementEvent::LaunchResult { ok }) => {
            if !ok {
                PlacementState::Done { outcome: AppOutcome::LaunchFailed }
            } else if 1 <= app.display && app.display <= monitors.len() {
                let work_area = monitors[app.display - 1].work_area;
                PlacementState::Searching {
                    x: placement_x(work_area, app.side) as i32,
                    y: work_area.top,
                    width: ((work_area.right - work_area.left) / 2) as i32,
                    height: (work_area.bottom - work_area.top) as i32,
                }
            } else {
                PlacementState::Done { outcome: AppOutcome::MonitorNotFound }
            }
        },
        (
            PlacementState::Searching { x, y, width, height },
            PlacementEvent::WindowsSeen { windows },
        ) => {
            match first_match_hwnd(windows@, search_token_spec(app.name@)) {
                Some(hwnd) => PlacementState::Positioning { hwnd, x, y, width, height },
                None => PlacementState::Done { outcome: AppOutcome::WindowNotFound },
            }
        },
        (PlacementState::Positioning { .. }, PlacementEvent::PositionResult { ok }) => {
            PlacementState::Done {
                outcome: if ok {
                    AppOutcome::Positioned
                } else {
                    AppOutcome::PlacementFailed
                },
            }
        },
        _ => state,
    }
}

/// An out-of-range display slot — slot `0`, a slot past the end of the
/// list, or any slot against an empty list — ends the pass straight after
/// the launch step: the next state is already the final one, and no
/// window search or positioning is ever asked for.
pub proof fn lemma_invalid_slot_never_positions(
    monitors: Seq<MonitorInfo>,
    app: Application,
    event: PlacementEvent,
)
    requires
        !(1 <= app.display && app.display <= monitors.len()),
        event_answers(PlacementState::Launching, event),
    ensures
        match next_state(monitors, app, PlacementState::Launching, event) {
            PlacementState::Done { outcome } => outcome == AppOutcome::LaunchFailed || outcome
                == AppOutcome::MonitorNotFound,
            _ => false,
        },
{
}

/// Starts one application's pass.
pub fn placement_init() -> (s: PlacementState)
    ensures
        s == PlacementState::Launching,
{
    PlacementState::Launching
}

/// Advances one application's pass by the event the embedding loop
/// observed. The monitor list is the one snapshot taken at the start of
/// the run; its work areas must be well formed, as the display subsystem
/// reports them.
pub fn placement_advance(
    monitors: &Vec<MonitorInfo>,
    app: &Application,
    state: &PlacementState,
    event: &PlacementEvent,
) -> (next: PlacementState)
    requires
        event_answers(*state, *event),
        forall|i: int| 0 <= i < monitors@.len() ==> rect_wf(#[trigger] monitors@[i].work_area),
    ensures
        next == next_state(monitors@, *app, *state, *event),
{
    match (state, event) {
        (PlacementState::Launching, PlacementEvent::LaunchResult { ok }) => {
            if !*ok {
                PlacementState::Done { outcome: AppOutcome::LaunchFailed }
            } else {
                match get_monitor_by_number(monitors.as_slice(), app.display) {
                    Some(monitor) => {
                        let (x, y, width, height) = calculate_window_position(
                            monitor,
                            &app.side,
                        );
                        PlacementState::Searching { x, y, width, height }
                    },
                    None => PlacementState::Done { outcome: AppOutcome::MonitorNotFound },
                }
            }
        },
        (
            PlacementState::Searching { x, y, width, height },
            PlacementEvent::WindowsSeen { windows },
        ) => {
            let token = search_token_for(app.name.as_str());
            match find_window_by_title(windows, token.as_str()) {
                Some(hwnd) => PlacementState::Positioning {
                    hwnd,
                    x: *x,
                    y: *y,
                    width: *width,
                    height: *height,
                },
                None => PlacementState::Done { outcome: AppOutcome::WindowNotFound },
            }
        },
        (PlacementState::Positioning { .. }, PlacementEvent::PositionResult { ok }) => {
            PlacementState::Done {
                outcome: if *ok {
                    AppOutcome::Positioned
                } else {
                    AppOutcome::PlacementFailed
                },
            }
        },
        _ => {
            proof {
                assert(false);
            }
            PlacementState::Done { outcome: AppOutcome::LaunchFailed }
        },
    }
}

} // verus!
