use viewer_bootstrap::bootstrap::{
    initial_model, plan_startup, playback_report, source_factory_name, PlaybackReport,
};
use viewer_bootstrap::lifecycle::{
    exit_status, handle_window_event, run_event_loop, update, AppAction, AppMessage, AppState,
    WindowEvent,
};
use viewer_bootstrap::pipeline::Pipeline;
use viewer_bootstrap::sink::{select_sink, selection_log_line, SinkChoice, SinkError};
use viewer_bootstrap::window::{build_window_plan, WidgetSlot};

#[test]
fn accelerated_factory_present_selects_accelerated() {
    assert_eq!(select_sink(true, true), Ok(SinkChoice::Accelerated));
    assert_eq!(select_sink(true, false), Ok(SinkChoice::Accelerated));
    assert_eq!(
        selection_log_line(SinkChoice::Accelerated),
        "Using OpenGL acceleration"
    );
}

#[test]
fn fallback_only_selects_software() {
    assert_eq!(select_sink(false, true), Ok(SinkChoice::Software));
    assert_eq!(
        selection_log_line(SinkChoice::Software),
        "Using software fallback"
    );
}

#[test]
fn selection_log_lines_differ() {
    assert_ne!(
        selection_log_line(SinkChoice::Accelerated),
        selection_log_line(SinkChoice::Software)
    );
}

#[test]
fn no_sink_factory_is_fatal() {
    assert_eq!(select_sink(false, false), Err(SinkError::NoSinkAvailable));
}

#[test]
fn startup_without_sinks_aborts_before_any_window() {
    let model = initial_model();
    let planned = plan_startup(model, false, false, 1, 2);
    assert!(planned.is_err());
}

#[test]
fn assembled_pipeline_has_two_elements_and_one_link() {
    let mut pipeline = Pipeline::new(None);
    pipeline.assemble(7, 9);
    assert_eq!(pipeline.num_elements(), 2);
    assert_eq!(pipeline.num_links(), 1);
    assert_eq!(pipeline.element_at(0), 7);
    assert_eq!(pipeline.element_at(1), 9);
    assert_eq!(pipeline.link_at(0), (7, 9));
}

#[test]
fn close_request_produces_exactly_the_quit_message() {
    assert_eq!(
        handle_window_event(WindowEvent::CloseRequested),
        (Some(AppMessage::Quit), false)
    );
}

#[test]
fn button_click_produces_no_message() {
    assert_eq!(handle_window_event(WindowEvent::ButtonClicked), (None, false));
}

#[test]
fn quit_moves_running_to_terminal_shutdown() {
    let (state, action) = update(AppState::Running, AppMessage::Quit);
    assert_eq!(state, AppState::ShuttingDown);
    assert_eq!(action, Some(AppAction::QuitEventLoop));
    let (again, none) = update(state, AppMessage::Quit);
    assert_eq!(again, AppState::ShuttingDown);
    assert_eq!(none, None);
}

#[test]
fn event_loop_stops_at_first_close_and_handles_one_quit() {
    let events = vec![
        WindowEvent::ButtonClicked,
        WindowEvent::CloseRequested,
        WindowEvent::ButtonClicked,
        WindowEvent::CloseRequested,
    ];
    let outcome = run_event_loop(&events);
    assert_eq!(outcome.final_state, AppState::ShuttingDown);
    assert_eq!(outcome.events_processed, 2);
    assert_eq!(outcome.quits_handled, 1);
}

#[test]
fn event_loop_without_close_keeps_running() {
    let events = vec![WindowEvent::ButtonClicked, WindowEvent::ButtonClicked];
    let outcome = run_event_loop(&events);
    assert_eq!(outcome.final_state, AppState::Running);
    assert_eq!(outcome.events_processed, 2);
    assert_eq!(outcome.quits_handled, 0);
}

#[test]
fn event_loop_with_no_events_keeps_running() {
    let outcome = run_event_loop(&Vec::new());
    assert_eq!(outcome.final_state, AppState::Running);
    assert_eq!(outcome.events_processed, 0);
    assert_eq!(outcome.quits_handled, 0);
}

#[test]
fn configured_source_name_is_kept() {
    let name = source_factory_name(&Some(String::from("v4l2src")));
    assert_eq!(name, "v4l2src");
}

#[test]
fn missing_source_name_falls_back_to_test_pattern() {
    let name = source_factory_name(&None);
    assert_eq!(name, "videotestsrc");
}

#[test]
fn initial_model_holds_webcam_source_and_empty_named_pipeline() {
    let model = initial_model();
    assert_eq!(model.video_source.as_deref(), Some("v4l2src"));
    assert_eq!(model.pipeline.num_elements(), 0);
    assert_eq!(model.pipeline.num_links(), 0);
    assert_eq!(model.pipeline.name_str(), Some("Video Pipeline"));
}

#[test]
fn window_plan_is_fixed_size_with_video_then_button() {
    let plan = build_window_plan();
    assert_eq!(plan.width, 320);
    assert_eq!(plan.height, 240);
    assert_eq!(
        plan.children,
        vec![WidgetSlot::VideoDisplay, WidgetSlot::ControlButton]
    );
}

#[test]
fn accelerated_startup_plans_composite_sink_and_window() {
    let model = initial_model();
    let plan = plan_startup(model, true, true, 1, 2).unwrap();
    assert_eq!(plan.sink, SinkChoice::Accelerated);
    assert_eq!(plan.log_line, "Using OpenGL acceleration");
    assert_eq!(plan.source_name, "v4l2src");
    assert_eq!(plan.pipeline.num_elements(), 2);
    assert_eq!(plan.pipeline.num_links(), 1);
    assert_eq!(plan.pipeline.link_at(0), (1, 2));
    assert_eq!(plan.window.width, 320);
    assert_eq!(plan.window.height, 240);
}

#[test]
fn software_startup_plans_plain_sink() {
    let model = initial_model();
    let plan = plan_startup(model, false, true, 4, 5).unwrap();
    assert_eq!(plan.sink, SinkChoice::Software);
    assert_eq!(plan.log_line, "Using software fallback");
    assert_eq!(plan.pipeline.link_at(0), (4, 5));
}

#[test]
fn playback_failure_is_logged_not_fatal() {
    assert_eq!(playback_report(false), PlaybackReport::ErrorLogged);
}

#[test]
fn clean_run_logs_no_error_and_exits_zero_on_close() {
    let model = initial_model();
    let plan = plan_startup(model, true, true, 1, 2).unwrap();
    assert_eq!(plan.sink, SinkChoice::Accelerated);
    assert_eq!(playback_report(true), PlaybackReport::Started);
    let outcome = run_event_loop(&vec![WindowEvent::CloseRequested]);
    assert_eq!(outcome.final_state, AppState::ShuttingDown);
    assert_eq!(outcome.quits_handled, 1);
    assert_eq!(exit_status(outcome.final_state), 0);
}

#[test]
fn abandoning_the_loop_while_running_is_not_a_clean_exit() {
    assert_ne!(exit_status(AppState::Running), 0);
}
