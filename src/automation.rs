//! Desktop automation surface: screen and window descriptions, and the
//! commands whose implementation is still to come.

use vstd::prelude::*;
use vstd::string::*;
use crate::text::{decimal, push_decimal};

verus! {

/// The monitors that are available.
pub struct ScreenState {
    pub timestamp: String,
    pub screens_available: usize,
    /// One label per monitor, in order.
    pub active_monitors: Vec<String>,
}

/// A desktop window.
pub struct WindowInfo {
    pub title: String,
    pub process_id: u32,
    pub has_focus: bool,
}

/// Envelope of an automation command's answer.
pub struct ApiResponse<T> {
    pub success: bool,
    pub data: Option<T>,
    pub error: Option<String>,
}

/// Label of monitor `index` of `width` by `height` pixels.
pub fn monitor_label(index: usize, width: u32, height: u32) -> (r: String)
    ensures
        r@ == "Monitor "@ + decimal(index as nat) + " ("@ + decimal(width as nat) + "x"@ + decimal(
            height as nat,
        ) + ")"@,
{
    let mut r = String::from_str("Monitor ");
    push_decimal(&mut r, index as u64);
    r.append(" (");
    push_decimal(&mut r, width as u64);
    r.append("x");
    push_decimal(&mut r, height as u64);
    r.append(")");
    r
}

/// The state of screens of the given sizes, observed at `timestamp`.
pub fn screen_state(timestamp: String, sizes: &Vec<(u32, u32)>) -> (r: ScreenState)
    ensures
        r.timestamp == timestamp,
        r.screens_available == sizes@.len(),
        r.active_monitors@.len() == sizes@.len(),
        forall|i: int|
            0 <= i < sizes@.len() ==> #[trigger] r.active_monitors@[i]@ == "Monitor "@ + decimal(
                i as nat,
            ) + " ("@ + decimal(sizes@[i].0 as nat) + "x"@ + decimal(sizes@[i].1 as nat) + ")"@,
{
    let mut labels: Vec<String> = Vec::new();
    let mut i: usize = 0;
    while i < sizes.len()
        invariant
            i <= sizes.len(),
            labels@.len() == i,
            forall|j: int|
                0 <= j < i ==> #[trigger] labels@[j]@ == "Monitor "@ + decimal(j as nat) + " ("@
                    + decimal(sizes@[j].0 as nat) + "x"@ + decimal(sizes@[j].1 as nat) + ")"@,
        decreases sizes.len() - i,
    {
        let (w, h) = sizes[i];
        labels.push(monitor_label(i, w, h));
        i = i + 1;
    }
    ScreenState { timestamp, screens_available: sizes.len(), active_monitors: labels }
}

/// Runs a recorded scenario; not available yet.
pub fn execute_scenario(scenario: &str) -> (r: Result<(), String>)
    ensures
        r matches Err(e) && e@ == "Not implemented"@,
{
    Err(String::from_str("Not implemented"))
}

/// Simulates an input action; not available yet.
pub fn simulate_input(action: &str) -> (r: Result<(), String>)
    ensures
        r matches Err(e) && e@ == "Not implemented"@,
{
    Err(String::from_str("Not implemented"))
}

/// Extended file watching; superseded by the log watcher.
pub fn start_watcher(path: &str) -> (r: Result<(), String>)
    ensures
        r matches Err(e) && e@ == "Use start_log_watcher"@,
{
    Err(String::from_str("Use start_log_watcher"))
}

/// The accessibility tree of the focused window; a placeholder tree for now.
pub fn parse_visual_tree() -> (r: Result<String, String>)
    ensures
        r matches Ok(t) && t@ == "{\"placeholder\": true}"@,
{
    Ok(String::from_str("{\"placeholder\": true}"))
}

/// Connects to the desktop automation server; not available yet.
pub fn connect_mcp() -> (r: Result<(), String>)
    ensures
        r matches Err(e) && e@ == "Not implemented"@,
{
    Err(String::from_str("Not implemented"))
}

} // verus!
