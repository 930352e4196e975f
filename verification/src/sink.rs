//! Selection of the video display sink.
//!
//! The viewer prefers a hardware-accelerated sink: a composite element that
//! wraps an OpenGL-capable inner sink. When the accelerated factory is not
//! available it falls back to a plain software sink. When neither factory is
//! available, no rendering is possible and selection fails fatally.

use vstd::prelude::*;

verus! {

/// The two ways the viewer can render video: a composite element wrapping an
/// OpenGL-capable inner sink, or a plain software sink.
#[derive(Clone, Copy, Debug, PartialEq, Eq, Structural)]
pub enum SinkChoice {
    Accelerated,
    Software,
}

/// Fatal outcome of sink selection: neither factory could supply an element,
/// so the application cannot render at all and must abort.
#[derive(Clone, Copy, Debug, PartialEq, Eq, Structural)]
pub enum SinkError {
    NoSinkAvailable,
}

/// The sink that selection settles on, given which of the two factories are
/// available: accelerated wins whenever it can be built, the software sink
/// is the fallback, and selection fails exactly when both are missing.
pub open spec fn selected_sink(
    accelerated_available: bool,
    fallback_available: bool,
) -> Result<SinkChoice, SinkError> {
    if accelerated_available {
        Ok(SinkChoice::Accelerated)
    } else if fallback_available {
        Ok(SinkChoice::Software)
    } else {
        Err(SinkError::NoSinkAvailable)
    }
}

/// The log line that announces which rendering path was chosen.
pub open spec fn selection_log(choice: SinkChoice) -> Seq<char> {
    match choice {
        SinkChoice::Accelerated => "Using OpenGL acceleration"@,
        SinkChoice::Software => "Using software fallback"@,
    }
}

/// Pick the display sink from the factories the media framework offers.
/// The caller probes the two factories and reports their availability; the
/// caller also prints the line `selection_log_line` gives for the choice.
pub fn select_sink(accelerated_available: bool, fallback_available: bool) -> (r: Result<
    SinkChoice,
    SinkError,
>)
    ensures
        r == selected_sink(accelerated_available, fallback_available),
        r is Ok <==> accelerated_available || fallback_available,
{
    if accelerated_available {
        Ok(SinkChoice::Accelerated)
    } else if fallback_available {
        Ok(SinkChoice::Software)
    } else {
        Err(SinkError::NoSinkAvailable)
    }
}

/// The human-readable line announcing the chosen rendering path.
pub fn selection_log_line(choice: SinkChoice) -> (r: &'static str)
    ensures
        r@ == selection_log(choice),
{
    match choice {
        SinkChoice::Accelerated => "Using OpenGL acceleration",
        SinkChoice::Software => "Using software fallback",
    }
}

/// Sink selection is mutually exclusive and exhaustive: the accelerated sink
/// is chosen exactly when the accelerated factory is available, the software
/// sink exactly when only the fallback is available, and selection fails
/// exactly when neither factory is available; the two success log lines
/// never coincide.
pub proof fn lemma_sink_selection_total(accelerated_available: bool, fallback_available: bool)
    ensures
        selected_sink(accelerated_available, fallback_available) == Ok::<SinkChoice, SinkError>(
            SinkChoice::Accelerated,
        ) <==> accelerated_available,
        selected_sink(accelerated_available, fallback_available) == Ok::<SinkChoice, SinkError>(
            SinkChoice::Software,
        ) <==> !accelerated_available && fallback_available,
        selected_sink(accelerated_available, fallback_available) is Err <==> !accelerated_available
            && !fallback_available,
        selection_log(SinkChoice::Accelerated) != selection_log(SinkChoice::Software),
{
    reveal_strlit("Using OpenGL acceleration");
    reveal_strlit("Using software fallback");
    assert(selection_log(SinkChoice::Accelerated).len() != selection_log(
        SinkChoice::Software,
    ).len());
}

} // verus!
