//! Classification of remote capability results: every raw value a DOM
//! script returns is reduced to the engine's closed tagged type once, at
//! the automation-target boundary, so that the step executor and the
//! workflow runner never compare strings themselves.
//!
//! Each capability has its own classifier, because the same tag means
//! different things to different steps: an absent "next" control signals
//! near-completion, an absent gating question is the job workflow's normal
//! terminal condition, while an absent filter control is fatal.

use vstd::prelude::*;

use crate::recovery::RecoveryReply;
use crate::step::{CapabilityReply, FailReason, Signal};

verus! {

/// A value returned by a remote script, reduced to what the engine reads:
/// a string tag, a boolean, or nothing it can use.
#[derive(Debug, Clone, PartialEq, Eq)]
pub enum ScriptValue {
    Text(String),
    Truth(bool),
    Nothing,
}

/// Whether a script value is the given tag.
fn tag_is(s: &String, tag: &str) -> (r: bool)
    ensures
        r == (s@ == tag@),
{
    let t: String = tag.to_owned();
    *s == t
}

/// What a boolean script result is worth: true only when the script
/// answered and answered true.
pub fn truth_of(v: &ScriptValue) -> (r: bool)
    ensures
        r == (v == ScriptValue::Truth(true)),
{
    match v {
        ScriptValue::Truth(b) => *b,
        _ => false,
    }
}

/// The authentication heuristic: an OR of four independent signals — a
/// profile element is present, the landing URL is reached, the login form
/// is absent, or a welcome message shows. A heuristic, not a guarantee:
/// any one signal is taken as enough.
pub fn is_authenticated(
    profile_present: bool,
    url_reached: bool,
    login_form_absent: bool,
    welcome_shown: bool,
) -> (r: bool)
    ensures
        r == (profile_present || url_reached || login_form_absent || welcome_shown),
{
    profile_present || url_reached || login_form_absent || welcome_shown
}

/// The verify-authenticated step's reply: an unauthenticated session is
/// transient (the page may still be transitioning), not fatal.
pub open spec fn spec_classify_authentication(authenticated: bool) -> CapabilityReply {
    if authenticated {
        CapabilityReply::Success(Signal::Advance)
    } else {
        CapabilityReply::NotReady
    }
}

pub fn classify_authentication(authenticated: bool) -> (r: CapabilityReply)
    ensures
        r == spec_classify_authentication(authenticated),
{
    if authenticated {
        CapabilityReply::Success(Signal::Advance)
    } else {
        CapabilityReply::NotReady
    }
}

/// The click-with-coordinate-fallback capability: either the coordinate
/// click or the selector fallback landed; anything else is fatal.
pub open spec fn spec_classify_element_click(v: ScriptValue) -> CapabilityReply {
    match v {
        ScriptValue::Text(s) => if s@ == "coordinate_click"@ || s@ == "selector_click"@ {
            CapabilityReply::Success(Signal::Advance)
        } else {
            CapabilityReply::Fatal(FailReason::Message(s))
        },
        _ => CapabilityReply::Fatal(FailReason::UnexpectedValue),
    }
}

pub fn classify_element_click(v: ScriptValue) -> (r: CapabilityReply)
    ensures
        r == spec_classify_element_click(v),
{
    match v {
        ScriptValue::Text(s) => {
            if tag_is(&s, "coordinate_click") || tag_is(&s, "selector_click") {
                CapabilityReply::Success(Signal::Advance)
            } else {
                CapabilityReply::Fatal(FailReason::Message(s))
            }
        },
        _ => CapabilityReply::Fatal(FailReason::UnexpectedValue),
    }
}

/// Selecting the first qualifying list entry: only the one success tag
/// matches; a missing list or entry is structurally fatal.
pub open spec fn spec_classify_qualifying_entry(v: ScriptValue) -> CapabilityReply {
    match v {
        ScriptValue::Text(s) => if s@ == "Clicked qualifying LI"@ {
            CapabilityReply::Success(Signal::Advance)
        } else {
            CapabilityReply::Fatal(FailReason::Message(s))
        },
        _ => CapabilityReply::Fatal(FailReason::UnexpectedValue),
    }
}

pub fn classify_qualifying_entry(v: ScriptValue) -> (r: CapabilityReply)
    ensures
        r == spec_classify_qualifying_entry(v),
{
    match v {
        ScriptValue::Text(s) => {
            if tag_is(&s, "Clicked qualifying LI") {
                CapabilityReply::Success(Signal::Advance)
            } else {
                CapabilityReply::Fatal(FailReason::Message(s))
            }
        },
        _ => CapabilityReply::Fatal(FailReason::UnexpectedValue),
    }
}

/// Opening the filter panel: the script answers with a plain boolean.
pub open spec fn spec_classify_filter_panel(v: ScriptValue) -> CapabilityReply {
    if v == ScriptValue::Truth(true) {
        CapabilityReply::Success(Signal::Advance)
    } else {
        CapabilityReply::Fatal(FailReason::UnexpectedValue)
    }
}

pub fn classify_filter_panel(v: ScriptValue) -> (r: CapabilityReply)
    ensures
        r == spec_classify_filter_panel(v),
{
    if truth_of(&v) {
        CapabilityReply::Success(Signal::Advance)
    } else {
        CapabilityReply::Fatal(FailReason::UnexpectedValue)
    }
}

/// Selecting the advanced filter option.
pub open spec fn spec_classify_advanced_filter(v: ScriptValue) -> CapabilityReply {
    match v {
        ScriptValue::Text(s) => if s@ == "Successfully clicked the advanced filter radio input"@ {
            CapabilityReply::Success(Signal::Advance)
        } else {
            CapabilityReply::Fatal(FailReason::Message(s))
        },
        _ => CapabilityReply::Fatal(FailReason::UnexpectedValue),
    }
}

pub fn classify_advanced_filter(v: ScriptValue) -> (r: CapabilityReply)
    ensures
        r == spec_classify_advanced_filter(v),
{
    match v {
        ScriptValue::Text(s) => {
            if tag_is(&s, "Successfully clicked the advanced filter radio input") {
                CapabilityReply::Success(Signal::Advance)
            } else {
                CapabilityReply::Fatal(FailReason::Message(s))
            }
        },
        _ => CapabilityReply::Fatal(FailReason::UnexpectedValue),
    }
}

/// Applying the chosen filters.
pub open spec fn spec_classify_apply_filters(v: ScriptValue) -> CapabilityReply {
    match v {
        ScriptValue::Text(s) => if s@ == "Successfully clicked the show results button"@ {
            CapabilityReply::Success(Signal::Advance)
        } else {
            CapabilityReply::Fatal(FailReason::Message(s))
        },
        _ => CapabilityReply::Fatal(FailReason::UnexpectedValue),
    }
}

pub fn classify_apply_filters(v: ScriptValue) -> (r: CapabilityReply)
    ensures
        r == spec_classify_apply_filters(v),
{
    match v {
        ScriptValue::Text(s) => {
            if tag_is(&s, "Successfully clicked the show results button") {
                CapabilityReply::Success(Signal::Advance)
            } else {
                CapabilityReply::Fatal(FailReason::Message(s))
            }
        },
        _ => CapabilityReply::Fatal(FailReason::UnexpectedValue),
    }
}

/// Locating an actionable control, with the capability's own inner
/// candidate scan: an already-actionable control, one found during the
/// scan, and a scan that found none are all acceptable outcomes — only a
/// missing list container or an explicit error is fatal.
pub open spec fn spec_classify_locate_action(v: ScriptValue) -> CapabilityReply {
    match v {
        ScriptValue::Text(s) => if s@ == "Apply button is already clickable"@ || s@
            == "Found clickable apply button"@ || s@ == "No clickable apply button found"@ {
            CapabilityReply::Success(Signal::Advance)
        } else {
            CapabilityReply::Fatal(FailReason::Message(s))
        },
        _ => CapabilityReply::Fatal(FailReason::UnexpectedValue),
    }
}

pub fn classify_locate_action(v: ScriptValue) -> (r: CapabilityReply)
    ensures
        r == spec_classify_locate_action(v),
{
    match v {
        ScriptValue::Text(s) => {
            if tag_is(&s, "Apply button is already clickable") || tag_is(
                &s,
                "Found clickable apply button",
            ) || tag_is(&s, "No clickable apply button found") {
                CapabilityReply::Success(Signal::Advance)
            } else {
                CapabilityReply::Fatal(FailReason::Message(s))
            }
        },
        _ => CapabilityReply::Fatal(FailReason::UnexpectedValue),
    }
}

/// Invoking the main action control.
pub open spec fn spec_classify_invoke_action(v: ScriptValue) -> CapabilityReply {
    match v {
        ScriptValue::Text(s) => if s@ == "Successfully clicked the apply button"@ {
            CapabilityReply::Success(Signal::Advance)
        } else {
            CapabilityReply::Fatal(FailReason::Message(s))
        },
        _ => CapabilityReply::Fatal(FailReason::UnexpectedValue),
    }
}

pub fn classify_invoke_action(v: ScriptValue) -> (r: CapabilityReply)
    ensures
        r == spec_classify_invoke_action(v),
{
    match v {
        ScriptValue::Text(s) => {
            if tag_is(&s, "Successfully clicked the apply button") {
                CapabilityReply::Success(Signal::Advance)
            } else {
                CapabilityReply::Fatal(FailReason::Message(s))
            }
        },
        _ => CapabilityReply::Fatal(FailReason::UnexpectedValue),
    }
}

/// Confirming the primary modal action.
pub open spec fn spec_classify_modal_primary(v: ScriptValue) -> CapabilityReply {
    match v {
        ScriptValue::Text(s) => if s@
            == "Successfully clicked the primary button in modal footer"@ {
            CapabilityReply::Success(Signal::Advance)
        } else {
            CapabilityReply::Fatal(FailReason::Message(s))
        },
        _ => CapabilityReply::Fatal(FailReason::UnexpectedValue),
    }
}

pub fn classify_modal_primary(v: ScriptValue) -> (r: CapabilityReply)
    ensures
        r == spec_classify_modal_primary(v),
{
    match v {
        ScriptValue::Text(s) => {
            if tag_is(&s, "Successfully clicked the primary button in modal footer") {
                CapabilityReply::Success(Signal::Advance)
            } else {
                CapabilityReply::Fatal(FailReason::Message(s))
            }
        },
        _ => CapabilityReply::Fatal(FailReason::UnexpectedValue),
    }
}

/// Advancing the modal: an absent "next" control is not an error — it
/// signals the flow is near completion, and the sequence goes on.
pub open spec fn spec_classify_advance_modal(v: ScriptValue) -> CapabilityReply {
    match v {
        ScriptValue::Text(s) => if s@ == "Successfully clicked the Next button in modal footer"@
            || s@ == "Next button not found in modal footer"@ {
            CapabilityReply::Success(Signal::Advance)
        } else {
            CapabilityReply::Fatal(FailReason::Message(s))
        },
        _ => CapabilityReply::Fatal(FailReason::UnexpectedValue),
    }
}

pub fn classify_advance_modal(v: ScriptValue) -> (r: CapabilityReply)
    ensures
        r == spec_classify_advance_modal(v),
{
    match v {
        ScriptValue::Text(s) => {
            if tag_is(&s, "Successfully clicked the Next button in modal footer") || tag_is(
                &s,
                "Next button not found in modal footer",
            ) {
                CapabilityReply::Success(Signal::Advance)
            } else {
                CapabilityReply::Fatal(FailReason::Message(s))
            }
        },
        _ => CapabilityReply::Fatal(FailReason::UnexpectedValue),
    }
}

/// The review-and-submit attempt: an absent review control is acceptable
/// (the flow continues), a review that found no submit control is fatal.
pub open spec fn spec_classify_review_submit(v: ScriptValue) -> CapabilityReply {
    match v {
        ScriptValue::Text(s) => if s@ == "Successfully reviewed and submitted application"@ || s@
            == "Review button not found"@ {
            CapabilityReply::Success(Signal::Advance)
        } else {
            CapabilityReply::Fatal(FailReason::Message(s))
        },
        _ => CapabilityReply::Fatal(FailReason::UnexpectedValue),
    }
}

pub fn classify_review_submit(v: ScriptValue) -> (r: CapabilityReply)
    ensures
        r == spec_classify_review_submit(v),
{
    match v {
        ScriptValue::Text(s) => {
            if tag_is(&s, "Successfully reviewed and submitted application") || tag_is(
                &s,
                "Review button not found",
            ) {
                CapabilityReply::Success(Signal::Advance)
            } else {
                CapabilityReply::Fatal(FailReason::Message(s))
            }
        },
        _ => CapabilityReply::Fatal(FailReason::UnexpectedValue),
    }
}

/// The gating question: answering it lets the sequence go on; its absence
/// is the workflow's normal terminal condition, not a failure.
pub open spec fn spec_classify_gating_question(v: ScriptValue) -> CapabilityReply {
    match v {
        ScriptValue::Text(s) => if s@
            == "Successfully selected 'Yes' for sponsorship question"@ {
            CapabilityReply::Success(Signal::Advance)
        } else if s@ == "Question not found"@ {
            CapabilityReply::Success(Signal::FinishRun)
        } else {
            CapabilityReply::Fatal(FailReason::Message(s))
        },
        _ => CapabilityReply::Fatal(FailReason::UnexpectedValue),
    }
}

pub fn classify_gating_question(v: ScriptValue) -> (r: CapabilityReply)
    ensures
        r == spec_classify_gating_question(v),
{
    match v {
        ScriptValue::Text(s) => {
            if tag_is(&s, "Successfully selected 'Yes' for sponsorship question") {
                CapabilityReply::Success(Signal::Advance)
            } else if tag_is(&s, "Question not found") {
                CapabilityReply::Success(Signal::FinishRun)
            } else {
                CapabilityReply::Fatal(FailReason::Message(s))
            }
        },
        _ => CapabilityReply::Fatal(FailReason::UnexpectedValue),
    }
}

/// One attempt at selecting the first catalog entry: the click must have
/// landed and the navigation must have been verified afterwards; every
/// other combination is transient and retried.
pub open spec fn spec_classify_first_entry_attempt(
    v: ScriptValue,
    on_target_page: bool,
) -> CapabilityReply {
    match v {
        ScriptValue::Text(s) => if s@ == "Clicked on the first movie"@ && on_target_page {
            CapabilityReply::Success(Signal::Advance)
        } else {
            CapabilityReply::NotReady
        },
        _ => CapabilityReply::NotReady,
    }
}

pub fn classify_first_entry_attempt(v: ScriptValue, on_target_page: bool) -> (r: CapabilityReply)
    ensures
        r == spec_classify_first_entry_attempt(v, on_target_page),
{
    match v {
        ScriptValue::Text(s) => {
            if tag_is(&s, "Clicked on the first movie") && on_target_page {
                CapabilityReply::Success(Signal::Advance)
            } else {
                CapabilityReply::NotReady
            }
        },
        _ => CapabilityReply::NotReady,
    }
}

/// One attempt at invoking the playback control: the click must have
/// landed and the player page must have been verified afterwards; every
/// other combination is transient and retried.
pub open spec fn spec_classify_playback_attempt(
    v: ScriptValue,
    on_player_page: bool,
) -> CapabilityReply {
    match v {
        ScriptValue::Text(s) => if s@ == "Clicked on the play button"@ && on_player_page {
            CapabilityReply::Success(Signal::Advance)
        } else {
            CapabilityReply::NotReady
        },
        _ => CapabilityReply::NotReady,
    }
}

pub fn classify_playback_attempt(v: ScriptValue, on_player_page: bool) -> (r: CapabilityReply)
    ensures
        r == spec_classify_playback_attempt(v, on_player_page),
{
    match v {
        ScriptValue::Text(s) => {
            if tag_is(&s, "Clicked on the play button") && on_player_page {
                CapabilityReply::Success(Signal::Advance)
            } else {
                CapabilityReply::NotReady
            }
        },
        _ => CapabilityReply::NotReady,
    }
}

/// Extracting the catalog listing: the boundary hands over how many
/// records it parsed; a listing that could not be parsed is fatal.
pub open spec fn spec_classify_extracted_listing(record_count: Option<usize>) -> CapabilityReply {
    match record_count {
        Some(_) => CapabilityReply::Success(Signal::Advance),
        None => CapabilityReply::Fatal(FailReason::UnexpectedValue),
    }
}

pub fn classify_extracted_listing(record_count: Option<usize>) -> (r: CapabilityReply)
    ensures
        r == spec_classify_extracted_listing(record_count),
{
    match record_count {
        Some(_) => CapabilityReply::Success(Signal::Advance),
        None => CapabilityReply::Fatal(FailReason::UnexpectedValue),
    }
}

/// What a dismiss action reported: anything but the explicit not-found tag
/// counts as having acted; a value of an unexpected shape counts as no
/// effect, since recovery never escalates.
pub open spec fn spec_classify_dismiss_result(v: ScriptValue) -> RecoveryReply {
    match v {
        ScriptValue::Text(s) => if s@ == "Dismiss button not found"@ {
            RecoveryReply::NoEffect
        } else {
            RecoveryReply::Matched
        },
        _ => RecoveryReply::NoEffect,
    }
}

pub fn classify_dismiss_result(v: ScriptValue) -> (r: RecoveryReply)
    ensures
        r == spec_classify_dismiss_result(v),
{
    match v {
        ScriptValue::Text(s) => {
            if tag_is(&s, "Dismiss button not found") {
                RecoveryReply::NoEffect
            } else {
                RecoveryReply::Matched
            }
        },
        _ => RecoveryReply::NoEffect,
    }
}

/// What the confirm-dialog action reported: only the explicit clicked tag
/// counts as having acted.
pub open spec fn spec_classify_confirm_result(v: ScriptValue) -> RecoveryReply {
    match v {
        ScriptValue::Text(s) => if s@ == "Close button clicked"@ {
            RecoveryReply::Matched
        } else {
            RecoveryReply::NoEffect
        },
        _ => RecoveryReply::NoEffect,
    }
}

pub fn classify_confirm_result(v: ScriptValue) -> (r: RecoveryReply)
    ensures
        r == spec_classify_confirm_result(v),
{
    match v {
        ScriptValue::Text(s) => {
            if tag_is(&s, "Close button clicked") {
                RecoveryReply::Matched
            } else {
                RecoveryReply::NoEffect
            }
        },
        _ => RecoveryReply::NoEffect,
    }
}

} // verus!
