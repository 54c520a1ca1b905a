//! The receiving panel's state machine: what the subscribing side of the
//! client does with each event its push stream delivers and with each status
//! change of the stream itself. Opening the stream and rendering are the GUI
//! shell's work.

use vstd::prelude::*;

verus! {

/// One event as the client shows it: the delivery's identifier and its
/// payload.
pub struct Event {
    pub title: String,
    pub description: String,
}

/// A status change of the push stream's source.
#[derive(Clone, Copy, PartialEq, Eq, Structural, Debug)]
pub enum SourceUpdate {
    Error,
    Open,
}

/// The messages the receiving panel handles.
pub enum Msg {
    /// An event arrived on the stream.
    PushEvent(Event),
    /// The stream's source changed status.
    ReceivedUpdate(SourceUpdate),
}

/// The receiving panel: every event observed so far, in arrival order, and
/// the source's last reported status.
pub struct Model {
    pub events: Vec<Event>,
    pub last_event: Option<SourceUpdate>,
}

impl Event {
    /// The one line the event is shown as.
    pub fn line(&self) -> (r: String)
        ensures
            r@ == self.title@ + " => "@ + self.description@,
    {
        let mut r = String::from_str(self.title.as_str());
        r.append(" => ");
        r.append(self.description.as_str());
        r
    }
}

impl SourceUpdate {
    /// The status's label.
    pub fn label(&self) -> (r: String)
        ensures
            self is Error ==> r@ == "error"@,
            self is Open ==> r@ == "open"@,
    {
        match self {
            SourceUpdate::Error => String::from_str("error"),
            SourceUpdate::Open => String::from_str("open"),
        }
    }
}

impl Model {
    /// The panel's initial state: nothing observed yet.
    pub fn new() -> (m: Model)
        ensures
            m.events@ =~= Seq::<Event>::empty(),
            m.last_event is None,
    {
        Model { events: Vec::new(), last_event: None }
    }

    /// One update step; always redraws. An arrived event is appended to the
    /// observations, in order; a status change replaces the last status.
    pub fn update(&mut self, msg: Msg) -> (r: bool)
        ensures
            r == true,
            msg matches Msg::PushEvent(e) ==> {
                &&& final(self).events@ =~= old(self).events@.push(e)
                &&& final(self).last_event == old(self).last_event
            },
            msg matches Msg::ReceivedUpdate(u) ==> {
                &&& final(self).last_event == Some(u)
                &&& final(self).events == old(self).events
            },
    {
        match msg {
            Msg::PushEvent(e) => {
                self.events.push(e);
                true
            },
            Msg::ReceivedUpdate(u) => {
                self.last_event = Some(u);
                true
            },
        }
    }

    /// The panel has no properties, so a property change never redraws.
    pub fn change(&self) -> (r: bool)
        ensures
            r == false,
    {
        false
    }
}

} // verus!
