use fanout::event_send;
use fanout::event_stream;
use fanout::event_stream::SourceUpdate;

#[test]
fn send_form_starts_empty() {
    let m = event_send::Model::new();
    assert_eq!(m.message, "");
    assert!(!m.sending);
    assert!(m.last_error.is_none());
    assert!(!m.change());
}

#[test]
fn send_form_edit_replaces_draft() {
    let mut m = event_send::Model::new();
    let (redraw, action) = m.update(event_send::Msg::UpdateMessage(String::from("hi")));
    assert!(redraw);
    assert!(action.is_none());
    assert_eq!(m.message, "hi");
    assert!(!m.sending);
}

#[test]
fn send_form_send_clears_draft_and_hands_payload_out() {
    let mut m = event_send::Model::new();
    m.update(event_send::Msg::UpdateMessage(String::from("hi")));
    let (redraw, action) = m.update(event_send::Msg::SendMessage(String::from("hi")));
    assert!(redraw);
    assert_eq!(action.as_deref(), Some("hi"));
    assert_eq!(m.message, "");
    assert!(m.sending);
}

#[test]
fn send_form_failure_keeps_draft_and_records_error() {
    let mut m = event_send::Model::new();
    m.update(event_send::Msg::UpdateMessage(String::from("draft")));
    let (_, action) = m.update(event_send::Msg::Response(Err(String::from("boom"))));
    assert!(action.is_none());
    assert_eq!(m.last_error.as_deref(), Some("boom"));
    assert_eq!(m.message, "draft");
}

#[test]
fn send_form_success_clears_everything() {
    let mut m = event_send::Model::new();
    m.update(event_send::Msg::SendMessage(String::from("hi")));
    m.update(event_send::Msg::Response(Err(String::from("boom"))));
    let (redraw, action) = m.update(event_send::Msg::Response(Ok(())));
    assert!(redraw);
    assert!(action.is_none());
    assert_eq!(m.message, "");
    assert!(m.last_error.is_none());
    assert!(!m.sending);
}

#[test]
fn send_form_failure_line() {
    let mut m = event_send::Model::new();
    assert!(m.view_last_error().is_none());
    m.update(event_send::Msg::Response(Err(String::from("boom"))));
    assert_eq!(m.view_last_error().as_deref(), Some("Sending failed: boom"));
    m.update(event_send::Msg::Response(Ok(())));
    assert!(m.view_last_error().is_none());
}

#[test]
fn stream_panel_appends_events_in_order() {
    let mut m = event_stream::Model::new();
    assert!(m.events.is_empty());
    assert!(m.last_event.is_none());
    m.update(event_stream::Msg::PushEvent(event_stream::Event {
        title: String::from("0"),
        description: String::from("a"),
    }));
    m.update(event_stream::Msg::PushEvent(event_stream::Event {
        title: String::from("1"),
        description: String::from("b"),
    }));
    assert_eq!(m.events.len(), 2);
    assert_eq!(m.events[0].title, "0");
    assert_eq!(m.events[1].description, "b");
    assert!(!m.change());
}

#[test]
fn stream_panel_tracks_last_status() {
    let mut m = event_stream::Model::new();
    m.update(event_stream::Msg::ReceivedUpdate(SourceUpdate::Open));
    assert_eq!(m.last_event, Some(SourceUpdate::Open));
    m.update(event_stream::Msg::ReceivedUpdate(SourceUpdate::Error));
    assert_eq!(m.last_event, Some(SourceUpdate::Error));
    assert!(m.events.is_empty());
}

#[test]
fn event_line_and_status_labels() {
    let e = event_stream::Event {
        title: String::from("3"),
        description: String::from("hello"),
    };
    assert_eq!(e.line(), "3 => hello");
    assert_eq!(SourceUpdate::Error.label(), "error");
    assert_eq!(SourceUpdate::Open.label(), "open");
}
