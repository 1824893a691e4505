use autoflow::classify::{
    classify_advance_modal, classify_advanced_filter, classify_apply_filters,
    classify_authentication, classify_confirm_result, classify_dismiss_result,
    classify_element_click, classify_extracted_listing, classify_filter_panel,
    classify_first_entry_attempt, classify_gating_question, classify_invoke_action,
    classify_locate_action, classify_modal_primary, classify_playback_attempt,
    classify_qualifying_entry, classify_review_submit, is_authenticated, truth_of, ScriptValue,
};
use autoflow::listing::MovieInfo;
use autoflow::recovery::RecoveryReply;
use autoflow::step::{CapabilityReply, FailReason, Signal};
use autoflow::text::{body_shows_welcome, bytes_have_prefix, bytes_have_substring, url_marks_feed};
use autoflow::workflow::{choose_workflow, WorkflowKind};

fn text(s: &str) -> ScriptValue {
    ScriptValue::Text(s.to_string())
}

fn advance() -> CapabilityReply {
    CapabilityReply::Success(Signal::Advance)
}

fn fatal_msg(s: &str) -> CapabilityReply {
    CapabilityReply::Fatal(FailReason::Message(s.to_string()))
}

#[test]
fn authentication_is_an_or_of_four_signals() {
    assert!(is_authenticated(true, false, false, false));
    assert!(is_authenticated(false, true, false, false));
    assert!(is_authenticated(false, false, true, false));
    assert!(is_authenticated(false, false, false, true));
    assert!(!is_authenticated(false, false, false, false));
    assert_eq!(classify_authentication(true), advance());
    assert_eq!(classify_authentication(false), CapabilityReply::NotReady);
}

#[test]
fn element_click_accepts_both_click_paths() {
    assert_eq!(classify_element_click(text("coordinate_click")), advance());
    assert_eq!(classify_element_click(text("selector_click")), advance());
    assert_eq!(classify_element_click(text("click_fail")), fatal_msg("click_fail"));
    assert_eq!(
        classify_element_click(ScriptValue::Nothing),
        CapabilityReply::Fatal(FailReason::UnexpectedValue)
    );
}

#[test]
fn qualifying_entry_fails_fast_when_absent() {
    assert_eq!(classify_qualifying_entry(text("Clicked qualifying LI")), advance());
    assert_eq!(
        classify_qualifying_entry(text("No qualifying LI found")),
        fatal_msg("No qualifying LI found")
    );
    assert_eq!(classify_qualifying_entry(text("UL not found")), fatal_msg("UL not found"));
}

#[test]
fn filter_panel_takes_a_boolean_answer() {
    assert_eq!(classify_filter_panel(ScriptValue::Truth(true)), advance());
    assert_eq!(
        classify_filter_panel(ScriptValue::Truth(false)),
        CapabilityReply::Fatal(FailReason::UnexpectedValue)
    );
    assert_eq!(
        classify_filter_panel(text("true")),
        CapabilityReply::Fatal(FailReason::UnexpectedValue)
    );
}

#[test]
fn advanced_filter_and_apply_filters_accept_only_their_tags() {
    assert_eq!(
        classify_advanced_filter(text("Successfully clicked the advanced filter radio input")),
        advance()
    );
    assert_eq!(
        classify_advanced_filter(text("Radio input not found")),
        fatal_msg("Radio input not found")
    );
    assert_eq!(
        classify_apply_filters(text("Successfully clicked the show results button")),
        advance()
    );
    assert_eq!(
        classify_apply_filters(text("Actionbar not found")),
        fatal_msg("Actionbar not found")
    );
}

#[test]
fn locating_an_action_control_tolerates_an_empty_scan() {
    assert_eq!(classify_locate_action(text("Apply button is already clickable")), advance());
    assert_eq!(classify_locate_action(text("Found clickable apply button")), advance());
    assert_eq!(classify_locate_action(text("No clickable apply button found")), advance());
    assert_eq!(classify_locate_action(text("Job list not found")), fatal_msg("Job list not found"));
}

#[test]
fn invoke_action_and_modal_primary_accept_only_their_tags() {
    assert_eq!(classify_invoke_action(text("Successfully clicked the apply button")), advance());
    assert_eq!(
        classify_invoke_action(text("Apply button not found")),
        fatal_msg("Apply button not found")
    );
    assert_eq!(
        classify_modal_primary(text("Successfully clicked the primary button in modal footer")),
        advance()
    );
    assert_eq!(classify_modal_primary(text("Modal not found")), fatal_msg("Modal not found"));
}

#[test]
fn absent_next_control_signals_near_completion_not_failure() {
    assert_eq!(
        classify_advance_modal(text("Successfully clicked the Next button in modal footer")),
        advance()
    );
    assert_eq!(classify_advance_modal(text("Next button not found in modal footer")), advance());
    assert_eq!(classify_advance_modal(text("Modal footer not found")), fatal_msg("Modal footer not found"));
}

#[test]
fn review_step_tolerates_absence_but_not_a_lost_submit_control() {
    assert_eq!(
        classify_review_submit(text("Successfully reviewed and submitted application")),
        advance()
    );
    assert_eq!(classify_review_submit(text("Review button not found")), advance());
    assert_eq!(
        classify_review_submit(text("Reviewed but couldn't find submit button")),
        fatal_msg("Reviewed but couldn't find submit button")
    );
}

#[test]
fn absent_gating_question_is_the_terminal_condition() {
    assert_eq!(
        classify_gating_question(text("Successfully selected 'Yes' for sponsorship question")),
        advance()
    );
    assert_eq!(
        classify_gating_question(text("Question not found")),
        CapabilityReply::Success(Signal::FinishRun)
    );
    assert_eq!(
        classify_gating_question(text("Yes option not found")),
        fatal_msg("Yes option not found")
    );
}

#[test]
fn first_entry_attempt_needs_both_the_click_and_the_navigation() {
    assert_eq!(classify_first_entry_attempt(text("Clicked on the first movie"), true), advance());
    assert_eq!(
        classify_first_entry_attempt(text("Clicked on the first movie"), false),
        CapabilityReply::NotReady
    );
    assert_eq!(
        classify_first_entry_attempt(text("No movie found"), true),
        CapabilityReply::NotReady
    );
}

#[test]
fn playback_attempt_needs_both_the_click_and_the_player_page() {
    assert_eq!(classify_playback_attempt(text("Clicked on the play button"), true), advance());
    assert_eq!(
        classify_playback_attempt(text("Clicked on the play button"), false),
        CapabilityReply::NotReady
    );
    assert_eq!(
        classify_playback_attempt(text("No play button found"), false),
        CapabilityReply::NotReady
    );
}

#[test]
fn unparsable_listing_is_fatal() {
    assert_eq!(classify_extracted_listing(Some(0)), advance());
    assert_eq!(classify_extracted_listing(Some(24)), advance());
    assert_eq!(
        classify_extracted_listing(None),
        CapabilityReply::Fatal(FailReason::UnexpectedValue)
    );
}

#[test]
fn recovery_replies_come_from_the_dismiss_and_confirm_tags() {
    assert_eq!(
        classify_dismiss_result(text("Dismiss button clicked by text content")),
        RecoveryReply::Matched
    );
    assert_eq!(classify_dismiss_result(text("Dismiss button not found")), RecoveryReply::NoEffect);
    assert_eq!(classify_dismiss_result(ScriptValue::Nothing), RecoveryReply::NoEffect);
    assert_eq!(classify_confirm_result(text("Close button clicked")), RecoveryReply::Matched);
    assert_eq!(classify_confirm_result(text("Close button not found")), RecoveryReply::NoEffect);
}

#[test]
fn truth_of_reads_only_a_true_boolean() {
    assert!(truth_of(&ScriptValue::Truth(true)));
    assert!(!truth_of(&ScriptValue::Truth(false)));
    assert!(!truth_of(&text("true")));
    assert!(!truth_of(&ScriptValue::Nothing));
}

#[test]
fn url_check_is_a_prefix_test() {
    assert!(url_marks_feed("https://www.linkedin.com/feed/"));
    assert!(url_marks_feed("https://www.linkedin.com/feed/?trk=x"));
    assert!(!url_marks_feed("https://www.linkedin.com/jobs"));
    assert!(!url_marks_feed(""));
}

#[test]
fn welcome_check_matches_either_marker_anywhere() {
    assert!(body_shows_welcome("Welcome back"));
    assert!(body_shows_welcome("Your Dashboard awaits"));
    assert!(body_shows_welcome("... Welcome ..."));
    assert!(!body_shows_welcome("Sign in to continue"));
    assert!(!body_shows_welcome(""));
}

#[test]
fn byte_predicates_handle_empty_needles() {
    assert!(bytes_have_prefix(b"abc", b""));
    assert!(bytes_have_prefix(b"abc", b"ab"));
    assert!(!bytes_have_prefix(b"abc", b"abcd"));
    assert!(bytes_have_substring(b"abc", b""));
    assert!(bytes_have_substring(b"abc", b"bc"));
    assert!(!bytes_have_substring(b"abc", b"cb"));
}

#[test]
fn workflow_choice_accepts_exactly_the_two_entries() {
    assert_eq!(choose_workflow(&"1".to_string()), Some(WorkflowKind::JobApplication));
    assert_eq!(choose_workflow(&"2".to_string()), Some(WorkflowKind::MediaDiscovery));
    assert_eq!(choose_workflow(&"3".to_string()), None);
    assert_eq!(choose_workflow(&"".to_string()), None);
}

#[test]
fn movie_info_keeps_its_fields() {
    let m = MovieInfo::new(
        "The Long Voyage".to_string(),
        Some("2019".to_string()),
        Some("HD".to_string()),
        None,
        Some("https://example.test/poster.jpg".to_string()),
    );
    assert_eq!(m.title, "The Long Voyage");
    assert_eq!(m.year, Some("2019".to_string()));
    assert_eq!(m.quality, Some("HD".to_string()));
    assert_eq!(m.duration, None);
    assert_eq!(m.poster_url, Some("https://example.test/poster.jpg".to_string()));
}
