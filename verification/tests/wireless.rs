use singularity::app::NmEvent;
use singularity::wireless::{connection_to_listen, wireless_change_event, State};

#[test]
fn an_error_stops_listening() {
    assert!(connection_to_listen(State::Error).is_none());
}

#[test]
fn property_changes_become_wifi_events() {
    assert!(matches!(wireless_change_event(Some(true)), Some(NmEvent::WiFiEnabled(true))));
    assert!(matches!(wireless_change_event(Some(false)), Some(NmEvent::WiFiEnabled(false))));
    assert!(wireless_change_event(None).is_none());
}
