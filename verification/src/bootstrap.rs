//! The viewer's bootstrap decisions: the initial model, the source factory
//! name, the whole startup plan, and the soft-error policy for starting
//! playback.
//!
//! Startup runs once: pick the source factory, select a sink, assemble the
//! two-element pipeline, and plan the window. Any failure there is fatal and
//! happens before a window exists. Starting playback afterwards is the one
//! soft spot: a failed transition is logged and execution continues, because
//! playback errors are reported asynchronously by the media framework.

use vstd::prelude::*;

use crate::pipeline::Pipeline;
use crate::sink::{selected_sink, selection_log, select_sink, selection_log_line, SinkChoice,
    SinkError};
use crate::window::{build_window_plan, WidgetSlot, WindowPlan, DEFAULT_WINDOW_HEIGHT,
    DEFAULT_WINDOW_WIDTH};

verus! {

/// The application model: the configured source factory name, if any, and
/// the owned pipeline. Created once at startup and read during view
/// construction; never mutated afterwards except through shutdown.
pub struct AppModel {
    pub video_source: Option<String>,
    pub pipeline: Pipeline,
}

/// The initial model: the source is configured to the webcam driver, and
/// the pipeline starts empty, under its fixed name.
pub fn initial_model() -> (m: AppModel)
    ensures
        m.video_source matches Some(s) && s@ == "v4l2src"@,
        m.pipeline.wf(),
        m.pipeline.element_count() == 0,
        m.pipeline.link_count() == 0,
        m.pipeline.name() matches Some(n) && n == "Video Pipeline"@,
{
    AppModel {
        video_source: Some("v4l2src".to_owned()),
        pipeline: Pipeline::new(Some("Video Pipeline".to_owned())),
    }
}

/// The factory name the source element is built from: the configured name
/// when there is one, else the synthetic test pattern as default.
pub fn source_factory_name(configured: &Option<String>) -> (r: String)
    ensures
        configured matches Some(s) ==> r@ == s@,
        configured is None ==> r@ == "videotestsrc"@,
{
    match configured {
        Some(s) => s.clone(),
        None => "videotestsrc".to_owned(),
    }
}

/// Everything startup decides when it succeeds: the source factory name,
/// the chosen sink with its announcement line, the assembled pipeline, and
/// the window plan. An aborted startup never holds a plan, so no window is
/// ever shown on failure.
pub struct StartupPlan {
    pub source_name: String,
    pub sink: SinkChoice,
    pub log_line: &'static str,
    pub pipeline: Pipeline,
    pub window: WindowPlan,
}

/// Make every startup decision in order: resolve the source factory name,
/// select the sink, assemble the model's empty pipeline from the source and
/// sink handles, and plan the window. Fails, before any window is planned,
/// exactly when no sink factory is available; that failure is fatal to the
/// application.
pub fn plan_startup(
    model: AppModel,
    accelerated_available: bool,
    fallback_available: bool,
    source_handle: u64,
    sink_handle: u64,
) -> (r: Result<StartupPlan, SinkError>)
    requires
        model.pipeline.wf(),
        model.pipeline.element_count() == 0,
        model.pipeline.link_count() == 0,
        source_handle != sink_handle,
    ensures
        r is Ok <==> accelerated_available || fallback_available,
        r is Err ==> r == Err::<StartupPlan, SinkError>(SinkError::NoSinkAvailable),
        r matches Ok(p) ==> {
            &&& Ok::<SinkChoice, SinkError>(p.sink) == selected_sink(
                accelerated_available,
                fallback_available,
            )
            &&& p.log_line@ == selection_log(p.sink)
            &&& (model.video_source matches Some(s) ==> p.source_name@ == s@)
            &&& (model.video_source is None ==> p.source_name@ == "videotestsrc"@)
            &&& p.pipeline.wf()
            &&& p.pipeline.element_count() == 2
            &&& p.pipeline.link_count() == 1
            &&& p.pipeline.elements() =~= seq![source_handle, sink_handle]
            &&& p.pipeline.links() =~= seq![(source_handle, sink_handle)]
            &&& p.pipeline.links_from_to(source_handle, sink_handle)
            &&& p.pipeline.name() == model.pipeline.name()
            &&& p.window.width == DEFAULT_WINDOW_WIDTH
            &&& p.window.height == DEFAULT_WINDOW_HEIGHT
            &&& p.window.children@ =~= seq![WidgetSlot::VideoDisplay, WidgetSlot::ControlButton]
        },
{
    let source_name = source_factory_name(&model.video_source);
    let sink = match select_sink(accelerated_available, fallback_available) {
        Ok(choice) => choice,
        Err(e) => {
            return Err(e);
        },
    };
    let log_line = selection_log_line(sink);
    let mut pipeline = model.pipeline;
    pipeline.assemble(source_handle, sink_handle);
    let window = build_window_plan();
    Ok(StartupPlan { source_name, sink, log_line, pipeline, window })
}

/// What happened when the pipeline was asked to start playing.
#[derive(Clone, Copy, Debug, PartialEq, Eq, Structural)]
pub enum PlaybackReport {
    Started,
    ErrorLogged,
}

/// The soft-error policy for the playback transition: a reported failure is
/// logged and execution continues — it is never fatal, since real playback
/// errors arrive asynchronously — and nothing is logged on success.
pub fn playback_report(transition_ok: bool) -> (r: PlaybackReport)
    ensures
        r is Started <==> transition_ok,
        r is ErrorLogged <==> !transition_ok,
{
    if transition_ok {
        PlaybackReport::Started
    } else {
        PlaybackReport::ErrorLogged
    }
}

} // verus!
