use vstd::prelude::*;

use crate::ui::UiState;

verus! {

/// One full-screen draw call of a tick.
pub enum DrawCall {
    /// The bordered, highlighted list of metric lines under a title.
    MetricsList { title: String, lines: Vec<String> },
    /// The unstyled overlay text.
    Overlay { text: String },
}

pub open spec fn is_metrics_list(d: DrawCall, lines: Seq<String>) -> bool {
    match d {
        DrawCall::MetricsList { title, lines: l } => title@ == "Block Title"@ && l@ == lines,
        _ => false,
    }
}

pub open spec fn is_overlay(d: DrawCall) -> bool {
    match d {
        DrawCall::Overlay { text } => text@ == "modal open"@,
        _ => false,
    }
}

/// The draw calls of one tick, in order: the metrics list, then, while the
/// overlay is open, a second full draw of the overlay.
pub fn draw_calls(state: &UiState, lines: Vec<String>) -> (r: Vec<DrawCall>)
    ensures
        r@.len() == if state.modal_open { 2int } else { 1int },
        is_metrics_list(r@[0], lines@),
        state.modal_open ==> is_overlay(r@[1]),
{
    let mut calls: Vec<DrawCall> = Vec::new();
    calls.push(DrawCall::MetricsList { title: String::from_str("Block Title"), lines });
    if state.is_modal_open() {
        calls.push(DrawCall::Overlay { text: String::from_str("modal open") });
    }
    calls
}

} // verus!
