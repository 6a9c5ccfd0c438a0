//! The event record delivered by the remote log service.

use vstd::prelude::*;

verus! {

/// One log event as a fetch returns it: an opaque identifier that may be
/// absent, the epoch-millisecond timestamp, and the message text.  Events
/// are produced fresh on every fetch and never mutated.
pub struct LogEvent {
    pub event_id: Option<String>,
    pub timestamp_millis: Option<i64>,
    pub message: Option<String>,
}

/// The mathematical value of a [`LogEvent`].
pub ghost struct LogEventView {
    pub event_id: Option<Seq<char>>,
    pub timestamp_millis: Option<i64>,
    pub message: Option<Seq<char>>,
}

impl View for LogEvent {
    type V = LogEventView;

    open spec fn view(&self) -> LogEventView {
        LogEventView {
            event_id: self.event_id.deep_view(),
            timestamp_millis: self.timestamp_millis,
            message: self.message.deep_view(),
        }
    }
}

impl DeepView for LogEvent {
    type V = LogEventView;

    open spec fn deep_view(&self) -> LogEventView {
        self.view()
    }
}

/// Copy an optional string by value.
fn clone_opt_string(o: &Option<String>) -> (r: Option<String>)
    ensures
        r.deep_view() == o.deep_view(),
{
    match o {
        Some(s) => Some(s.clone()),
        None => None,
    }
}

/// The events a fetch response carries: an absent event list means no
/// events in the window, a normal outcome and not an error.
pub fn events_of_response(events: Option<Vec<LogEvent>>) -> (r: Vec<LogEvent>)
    ensures
        r.deep_view() == match events {
            Some(v) => v.deep_view(),
            None => Seq::<LogEventView>::empty(),
        },
{
    match events {
        Some(v) => v,
        None => {
            let r: Vec<LogEvent> = Vec::new();
            proof {
                assert(r.deep_view() =~= Seq::<LogEventView>::empty());
            }
            r
        },
    }
}

impl LogEvent {
    /// An identical copy of the event.
    pub fn duplicate(&self) -> (r: LogEvent)
        ensures
            r@ == self@,
    {
        LogEvent {
            event_id: clone_opt_string(&self.event_id),
            timestamp_millis: self.timestamp_millis,
            message: clone_opt_string(&self.message),
        }
    }
}

} // verus!
