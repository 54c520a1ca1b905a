//! The publishing form's state machine: what the send side of the client
//! decides on each message it handles. Starting the actual request, and
//! rendering, are the GUI shell's work: the update step hands back the
//! payload a request must be started with.

use vstd::prelude::*;

verus! {

/// The messages the publishing form handles.
pub enum Msg {
    /// The outcome of a finished send: success, or the error's description.
    Response(Result<(), String>),
    /// The user edited the message being composed.
    UpdateMessage(String),
    /// The user asked to send this payload.
    SendMessage(String),
}

/// The publishing form: the message being composed, whether a send is in
/// flight, and the last send's error, if any.
pub struct Model {
    pub message: String,
    pub sending: bool,
    pub last_error: Option<String>,
}

impl Model {
    /// The form's initial state: empty, idle, no error.
    pub fn new() -> (m: Model)
        ensures
            m.message@ =~= Seq::<char>::empty(),
            !m.sending,
            m.last_error is None,
    {
        Model { message: String::new(), sending: false, last_error: None }
    }

    /// One update step. The result is whether to redraw (always) and, for a
    /// send request, the payload the shell must start a request with. A
    /// successful response clears the form and the error; a failed one only
    /// records the error, leaving the draft and the in-flight request as
    /// they were; a send clears the draft and marks a request in flight; an
    /// edit replaces the draft.
    pub fn update(&mut self, msg: Msg) -> (r: (bool, Option<String>))
        ensures
            r.0 == true,
            msg matches Msg::Response(Ok(())) ==> {
                &&& final(self).message@ =~= Seq::<char>::empty()
                &&& final(self).last_error is None
                &&& !final(self).sending
                &&& r.1 is None
            },
            msg matches Msg::Response(Err(e)) ==> {
                &&& final(self).last_error == Some(e)
                &&& final(self).message == old(self).message
                &&& final(self).sending == old(self).sending
                &&& r.1 is None
            },
            msg matches Msg::SendMessage(s) ==> {
                &&& r.1 == Some(s)
                &&& final(self).sending
                &&& final(self).message@ =~= Seq::<char>::empty()
                &&& final(self).last_error == old(self).last_error
            },
            msg matches Msg::UpdateMessage(s) ==> {
                &&& final(self).message == s
                &&& final(self).sending == old(self).sending
                &&& final(self).last_error == old(self).last_error
                &&& r.1 is None
            },
    {
        match msg {
            Msg::Response(res) => {
                match res {
                    Err(e) => {
                        self.last_error = Some(e);
                    },
                    Ok(_) => {
                        self.last_error = None;
                        self.message = String::new();
                        self.sending = false;
                    },
                }
                (true, None)
            },
            Msg::SendMessage(s) => {
                self.sending = true;
                self.message = String::new();
                (true, Some(s))
            },
            Msg::UpdateMessage(s) => {
                self.message = s;
                (true, None)
            },
        }
    }

    /// The line shown for the last send's failure: the error's description
    /// under the failure caption, or nothing when the last send succeeded.
    pub fn view_last_error(&self) -> (r: Option<String>)
        ensures
            self.last_error matches Some(e) ==> r matches Some(line) && line@ == "Sending failed: "@
                + e@,
            self.last_error is None ==> r is None,
    {
        match &self.last_error {
            Some(e) => {
                let mut line = String::from_str("Sending failed: ");
                line.append(e.as_str());
                Some(line)
            },
            None => None,
        }
    }

    /// The form has no properties, so a property change never redraws.
    pub fn change(&self) -> (r: bool)
        ensures
            r == false,
    {
        false
    }
}

} // verus!
