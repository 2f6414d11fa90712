//! Event processing: the errors of the pipeline, the decisions the
//! processing loop makes, and the structured log lines it emits.
//!
//! The pipeline reads a key event from an input device, resolves it through
//! the configured mappings, and injects the resulting events into an output
//! device.  The decisions taken around each step — when the loop ends, which
//! failures are reported, which state transition a mapped key makes — are
//! the functions of this module.

pub mod logging;

use vstd::prelude::*;
use crate::keys::KeyEvent;
use crate::platform::{DeviceError, OutputDevice, device_error_message};
use crate::text::concat2;
use logging::{log_platform_error, platform_error_line, is_log_timestamp};
use logging::{format_modifier_activated, format_modifier_deactivated, format_lock_toggled,
    modifier_activated_text, modifier_deactivated_text, lock_toggled_text};

verus! {

/// Errors that can occur during event processing.
#[derive(Debug)]
pub enum ProcessorError {
    /// Error reading from the input device.
    Input(DeviceError),
    /// Error writing to the output device.
    Output(DeviceError),
}

impl ProcessorError {
    /// Renders the error as human-readable text: the side that failed,
    /// then the device error's own text.
    pub fn to_string(&self) -> (r: String)
        ensures
            *self matches ProcessorError::Input(e) ==> if e is Io {
                ("input device error: "@ + "I/O error: "@).is_prefix_of(r@)
            } else {
                r@ == "input device error: "@ + device_error_message(e)
            },
            *self matches ProcessorError::Output(e) ==> if e is Io {
                ("output device error: "@ + "I/O error: "@).is_prefix_of(r@)
            } else {
                r@ == "output device error: "@ + device_error_message(e)
            },
    {
        let (prefix, inner) = match self {
            ProcessorError::Input(e) => ("input device error: ", e.to_string()),
            ProcessorError::Output(e) => ("output device error: ", e.to_string()),
        };
        let r = concat2(prefix, inner.as_str());
        proof {
            let io = "I/O error: "@;
            if io.is_prefix_of(inner@) {
                assert((prefix@ + io) =~= r@.subrange(0, (prefix@ + io).len() as int));
            }
        }
        r
    }
}

impl From<DeviceError> for ProcessorError {
    fn from(e: DeviceError) -> (r: Self) {
        ProcessorError::Input(e)
    }
}

impl vstd::std_specs::convert::FromSpecImpl<DeviceError> for ProcessorError {
    open spec fn obeys_from_spec() -> bool {
        true
    }

    open spec fn from_spec(v: DeviceError) -> Self {
        ProcessorError::Input(v)
    }
}

/// What the processing loop does after one step: go on with the next
/// event, or stop with the given result.  The end of the input stream is a
/// normal stop; any other failure stops the loop with that failure.
pub open spec fn step_outcome(step: Result<(), ProcessorError>) -> Option<Result<(), ProcessorError>> {
    match step {
        Ok(()) => None,
        Err(ProcessorError::Input(DeviceError::EndOfStream)) => Some(Ok(())),
        Err(e) => Some(Err(e)),
    }
}

/// Decides, from the result of one processing step, whether the loop goes
/// on (`None`) or stops with a result.
pub fn after_step(step: Result<(), ProcessorError>) -> (r: Option<Result<(), ProcessorError>>)
    ensures
        r == step_outcome(step),
        step is Ok <==> r is None,
        step matches Err(e) ==> if e matches ProcessorError::Input(DeviceError::EndOfStream) {
            r == Some(Ok::<(), ProcessorError>(()))
        } else {
            r == Some(Err::<(), ProcessorError>(e))
        },
{
    match step {
        Ok(()) => None,
        Err(ProcessorError::Input(DeviceError::EndOfStream)) => Some(Ok(())),
        Err(e) => Some(Err(e)),
    }
}

/// The text a device error is reported by: its message, which for an I/O
/// error goes on with the I/O error's own text after `I/O error: `.
pub open spec fn reports_error(text: Seq<char>, e: DeviceError) -> bool {
    if e is Io {
        "I/O error: "@.is_prefix_of(text)
    } else {
        text == device_error_message(e)
    }
}

/// What a failed read from the input device makes of the step: the error,
/// as an input error, and the `platform_error` line logged for the input
/// device, except at the end of the stream, which is not logged.
pub fn input_failure_report(e: DeviceError) -> (r: (ProcessorError, Option<String>))
    ensures
        r.0 == ProcessorError::Input(e),
        r.1 is None <==> e is EndOfStream,
        r.1 matches Some(line) ==> exists|ts: Seq<char>, text: Seq<char>|
            is_log_timestamp(ts) && reports_error(text, e) && line@ == platform_error_line(
                ts,
                text,
                "input"@,
            ),
{
    let line = match &e {
        DeviceError::EndOfStream => None,
        _ => {
            let text = e.to_string();
            Some(log_platform_error(text.as_str(), "input"))
        },
    };
    (ProcessorError::Input(e), line)
}

/// What a failed injection makes of the step: the injection stops there,
/// with the error as an output error and the `platform_error` line logged
/// for the output device.
pub fn output_failure_report(e: DeviceError) -> (r: (ProcessorError, String))
    ensures
        r.0 == ProcessorError::Output(e),
        exists|ts: Seq<char>, text: Seq<char>|
            is_log_timestamp(ts) && reports_error(text, e) && r.1@ == platform_error_line(
                ts,
                text,
                "output"@,
            ),
{
    let text = e.to_string();
    let line = log_platform_error(text.as_str(), "output");
    (ProcessorError::Output(e), line)
}

/// Injects the output events in order and stops at the first injection
/// that fails, with that failure reported for the output device.  On
/// success the device has injected every event, in order; on failure it
/// has injected those before the one that failed.
pub fn inject_output_events<O: OutputDevice>(output: &mut O, events: &[KeyEvent]) -> (r: Result<(), (ProcessorError, String)>)
    ensures
        events@.len() == 0 ==> r is Ok,
        r is Ok ==> final(output).injected() == old(output).injected() + events@,
        r is Err ==> exists|k: int| 0 <= k < events@.len() && final(output).injected()
            == old(output).injected() + events@.take(k),
        r matches Err((pe, line)) ==> exists|e: DeviceError, ts: Seq<char>, text: Seq<char>|
            pe == ProcessorError::Output(e) && is_log_timestamp(ts) && reports_error(text, e)
                && line@ == platform_error_line(ts, text, "output"@),
{
    let mut i: usize = 0;
    while i < events.len()
        invariant
            i <= events@.len(),
            output.injected() == old(output).injected() + events@.take(i as int),
        decreases events@.len() - i,
    {
        let ghost before = output.injected();
        match output.inject_event(events[i]) {
            Ok(()) => {
                assert(events@.take(i + 1) =~= events@.take(i as int).push(events@[i as int]));
                assert(output.injected() =~= old(output).injected() + events@.take(i + 1));
            },
            Err(e) => {
                return Err(output_failure_report(e));
            },
        }
        i = i + 1;
    }
    assert(events@.take(i as int) =~= events@);
    Ok(())
}

/// The processing loop goes on only after a step that succeeded; the end
/// of the input stream stops it cleanly, and every other failure, of the
/// input or of the output device, stops it with that very failure.
pub proof fn law_loop_stops_on_every_failure(e: ProcessorError)
    ensures
        step_outcome(Ok(())) is None,
        step_outcome(Err(ProcessorError::Input(DeviceError::EndOfStream))) == Some(
            Ok::<(), ProcessorError>(()),
        ),
        !(e matches ProcessorError::Input(DeviceError::EndOfStream)) ==> step_outcome(Err(e))
            == Some(Err::<(), ProcessorError>(e)),
        step_outcome(Err(e)) is Some,
{
}

/// The role that the mapping found for a key plays in the device state.
#[derive(Debug, Clone, Copy, PartialEq, Eq, Structural)]
pub enum MappingRole {
    /// The key acts as the custom modifier with this id.
    Modifier(u8),
    /// The key toggles the custom lock with this id.
    Lock(u8),
    /// The key is remapped to output keys.
    Output,
}

/// The state-transition context logged for an event on a key whose
/// mapping has the given role: pressing or releasing a modifier key
/// activates or deactivates it, pressing a lock key toggles it; anything
/// else is no transition.
pub open spec fn transition_text(role: Option<MappingRole>, event: KeyEvent) -> Option<Seq<char>> {
    match (role, event) {
        (Some(MappingRole::Modifier(id)), KeyEvent::Press(_)) => Some(modifier_activated_text(id)),
        (Some(MappingRole::Modifier(id)), KeyEvent::Release(_)) => Some(
            modifier_deactivated_text(id),
        ),
        (Some(MappingRole::Lock(id)), KeyEvent::Press(_)) => Some(lock_toggled_text(id)),
        _ => None,
    }
}

/// Detects the modifier or lock state transition that an event makes, from
/// the role of the mapping found for its key (`None` when no mapping
/// applies).
pub fn detect_state_transition(role: Option<MappingRole>, event: KeyEvent) -> (r: Option<String>)
    ensures
        r matches Some(s) ==> transition_text(role, event) == Some(s@),
        r is None <==> transition_text(role, event) is None,
{
    match (role, event) {
        (Some(MappingRole::Modifier(id)), KeyEvent::Press(_)) => Some(format_modifier_activated(id)),
        (Some(MappingRole::Modifier(id)), KeyEvent::Release(_)) => Some(
            format_modifier_deactivated(id),
        ),
        (Some(MappingRole::Lock(id)), KeyEvent::Press(_)) => Some(format_lock_toggled(id)),
        _ => None,
    }
}

} // verus!
