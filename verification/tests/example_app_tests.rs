use miti_tracefront::example_app::{
    DownlinkIcon, ExampleApp, FrontSocket, InWindow, MitiIn, MitiOut, UplinkIcon,
};

fn record(direction: &str, rate: u16, text: char, roaming: bool) -> MitiIn {
    MitiIn { direction: direction.to_string(), rate, text, roaming }
}

#[test]
fn miti_out_is_the_data_request() {
    let m = MitiOut::new();
    assert_eq!(m.request, "data");
    assert_eq!(m.index, 12);
    assert_eq!(m.test, "Test");
}

#[test]
fn duplicate_keeps_every_field() {
    let m = record("upload", 42, 'z', true);
    let d = m.duplicate();
    assert_eq!(d.direction, "upload");
    assert_eq!(d.rate, 42);
    assert_eq!(d.text, 'z');
    assert!(d.roaming);
}

#[test]
fn in_window_starts_empty() {
    let w = InWindow::default();
    assert!(w.m_in.is_none());
    assert!(w.printing_output().is_empty());
    assert_eq!(w.direction_icons(), (UplinkIcon::Black, DownlinkIcon::Black));
}

#[test]
fn update_in_shows_the_record() {
    let mut w = InWindow::default();
    w.update_in(record("download", 7, 'k', false));
    let shown = w.m_in.as_ref().unwrap();
    assert_eq!(shown.direction, "download");
    assert_eq!(shown.rate, 7);
}

#[test]
fn printing_output_lines() {
    let mut w = InWindow::default();
    w.update_in(record("upload", 1500, 'q', true));
    assert_eq!(w.printing_output(), vec!["upload", "1500", "q", "true"]);
    w.update_in(record("sideways", 0, ' ', false));
    assert_eq!(w.printing_output(), vec!["sideways", "0", " ", "false"]);
}

#[test]
fn direction_icons_for_each_direction() {
    let mut w = InWindow::default();
    w.update_in(record("upload", 1, 'a', false));
    assert_eq!(w.direction_icons(), (UplinkIcon::Blue, DownlinkIcon::Black));
    w.update_in(record("download", 1, 'a', false));
    assert_eq!(w.direction_icons(), (UplinkIcon::Black, DownlinkIcon::Green));
    w.update_in(record("Upload", 1, 'a', false));
    assert_eq!(w.direction_icons(), (UplinkIcon::Black, DownlinkIcon::Black));
    w.update_in(record("", 1, 'a', false));
    assert_eq!(w.direction_icons(), (UplinkIcon::Black, DownlinkIcon::Black));
}

#[test]
fn front_socket_starts_empty() {
    let fs = FrontSocket::new();
    assert_eq!(fs.event_count(), 0);
    assert!(fs.in_window().m_in.is_none());
}

#[test]
fn front_socket_shows_the_newest_record() {
    let mut fs = FrontSocket::new();
    fs.receive(record("upload", 10, 'a', false));
    fs.receive(record("download", 20, 'b', true));
    fs.receive(record("idle", 30, 'c', false));
    assert_eq!(fs.event_count(), 3);
    let shown = fs.in_window().m_in.as_ref().unwrap();
    assert_eq!(shown.direction, "idle");
    assert_eq!(shown.rate, 30);
    assert_eq!(shown.text, 'c');
}

#[test]
fn example_app_default() {
    let app = ExampleApp::default();
    assert_eq!(app.url(), "ws://ws.ceyraud.com:80");
    assert_eq!(app.error(), "");
    assert!(!app.show_error());
    assert!(app.frontsocket().is_none());
}

#[test]
fn failed_connect_keeps_the_error() {
    let mut app = ExampleApp::default();
    app.connect(Err("connection refused".to_string()));
    assert_eq!(app.error(), "connection refused");
    assert!(app.show_error());
    assert!(app.frontsocket().is_none());
    assert_eq!(app.url(), "ws://ws.ceyraud.com:80");
}

#[test]
fn successful_connect_clears_the_error() {
    let mut app = ExampleApp::default();
    app.connect(Err("down".to_string()));
    app.connect(Ok(()));
    assert_eq!(app.error(), "");
    assert!(!app.show_error());
    let fs = app.frontsocket().unwrap();
    assert_eq!(fs.event_count(), 0);
}

#[test]
fn reconnect_starts_a_fresh_socket() {
    let mut app = ExampleApp::default();
    app.connect(Ok(()));
    app.receive(record("upload", 5, 'u', true));
    assert_eq!(app.frontsocket().unwrap().event_count(), 1);
    app.connect(Err("lost".to_string()));
    assert_eq!(app.frontsocket().unwrap().event_count(), 1);
    app.connect(Ok(()));
    assert_eq!(app.frontsocket().unwrap().event_count(), 0);
}

#[test]
fn receive_without_connection_is_dropped() {
    let mut app = ExampleApp::default();
    app.receive(record("upload", 5, 'u', true));
    assert!(app.frontsocket().is_none());
}

#[test]
fn receive_with_connection_is_shown() {
    let mut app = ExampleApp::default();
    app.connect(Ok(()));
    app.receive(record("download", 99, 'd', false));
    let fs = app.frontsocket().unwrap();
    assert_eq!(fs.in_window().printing_output(), vec!["download", "99", "d", "false"]);
    assert_eq!(fs.in_window().direction_icons(), (UplinkIcon::Black, DownlinkIcon::Green));
}
