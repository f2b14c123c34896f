use miti_tracefront::trace_app::miti_ws::MitiTrace;
use miti_tracefront::trace_app::trace_pannels::{LinkPannel, PannelMenuItem, RatePannel, TracePannels};
use miti_tracefront::trace_app::TraceFront;

fn window_lines(p: &TracePannels) -> Vec<(String, String)> {
    p.windows().into_iter().map(|w| (w.title, w.label)).collect()
}

#[test]
fn link_pannel_labels() {
    let p = LinkPannel::new(Some("Test".to_string()));
    assert_eq!(p.label(), "Test");
    assert_eq!(p.title(), "LinkPannel");
    assert_eq!(LinkPannel::new(None).label(), "nothing");
    assert_eq!(LinkPannel::default().label(), "nothing");
}

#[test]
fn rate_pannel_labels() {
    let p = RatePannel::new(Some(12));
    assert_eq!(p.label(), "12");
    assert_eq!(p.title(), "RatePannel");
    assert_eq!(RatePannel::new(Some(65535)).label(), "65535");
    assert_eq!(RatePannel::new(None).label(), "nothing");
    assert_eq!(RatePannel::default().label(), "nothing");
}

#[test]
fn pannels_start_unset() {
    let mut p = TracePannels::default();
    assert!(!p.is_set_lpannel());
    assert!(!p.is_set_rpannel());
    assert!(p.windows().is_empty());
}

#[test]
fn set_then_is_set() {
    let mut p = TracePannels::default();
    p.set_lpannel(Some(LinkPannel::new(None)));
    assert!(p.is_set_lpannel());
    assert!(!p.is_set_rpannel());
    p.set_rpannel(Some(RatePannel::new(Some(3))));
    assert!(p.is_set_lpannel());
    assert!(p.is_set_rpannel());
    p.set_lpannel(None);
    assert!(!p.is_set_lpannel());
    assert!(p.is_set_rpannel());
}

#[test]
fn windows_follow_the_pannels() {
    let mut p = TracePannels::default();
    p.set_rpannel(Some(RatePannel::new(Some(250))));
    assert_eq!(window_lines(&p), vec![("RatePannel".to_string(), "250".to_string())]);
    p.set_lpannel(Some(LinkPannel::new(Some("upload".to_string()))));
    assert_eq!(
        window_lines(&p),
        vec![
            ("LinkPannel".to_string(), "upload".to_string()),
            ("RatePannel".to_string(), "250".to_string()),
        ]
    );
}

#[test]
fn menu_captions() {
    assert_eq!(PannelMenuItem::RemoveLinkPannel.caption(), "Remove LinkPannel");
    assert_eq!(PannelMenuItem::AddLinkPannel.caption(), "Add LinkPannel");
    assert_eq!(PannelMenuItem::RemoveRatePannel.caption(), "Remove RatePannel");
    assert_eq!(PannelMenuItem::AddRatePannel.caption(), "Add RatePannel");
}

#[test]
fn menu_offers_add_then_remove() {
    let mut p = TracePannels::default();
    assert_eq!(p.menu_items(), (PannelMenuItem::AddLinkPannel, PannelMenuItem::AddRatePannel));
    p.click(PannelMenuItem::AddLinkPannel);
    assert_eq!(p.menu_items(), (PannelMenuItem::RemoveLinkPannel, PannelMenuItem::AddRatePannel));
    p.click(PannelMenuItem::AddRatePannel);
    assert_eq!(p.menu_items(), (PannelMenuItem::RemoveLinkPannel, PannelMenuItem::RemoveRatePannel));
    assert_eq!(
        window_lines(&p),
        vec![
            ("LinkPannel".to_string(), "Test".to_string()),
            ("RatePannel".to_string(), "12".to_string()),
        ]
    );
}

#[test]
fn click_toggles_one_pannel() {
    let mut p = TracePannels::default();
    p.click(PannelMenuItem::AddRatePannel);
    let (link, _) = p.menu_items();
    p.click(link);
    assert!(p.is_set_lpannel());
    assert!(p.is_set_rpannel());
    let (_, rate) = p.menu_items();
    p.click(rate);
    assert!(p.is_set_lpannel());
    assert!(!p.is_set_rpannel());
}

#[test]
fn add_then_remove_restores() {
    let mut p = TracePannels::default();
    p.set_rpannel(Some(RatePannel::new(Some(77))));
    let before = window_lines(&p);
    let (link, _) = p.menu_items();
    p.click(link);
    let (link, _) = p.menu_items();
    p.click(link);
    assert_eq!(window_lines(&p), before);
    assert!(!p.is_set_lpannel());
}

#[test]
fn remove_then_add_replaces_the_pannel() {
    let mut p = TracePannels::default();
    p.set_lpannel(Some(LinkPannel::new(Some("download".to_string()))));
    p.click(PannelMenuItem::RemoveLinkPannel);
    p.click(PannelMenuItem::AddLinkPannel);
    assert_eq!(window_lines(&p), vec![("LinkPannel".to_string(), "Test".to_string())]);
}

#[test]
fn trace_front_default() {
    let mut f = TraceFront::default();
    assert_eq!(f.url(), "ws://127.0.0.1:8002");
    assert_eq!(f.menu_items(), (PannelMenuItem::AddLinkPannel, PannelMenuItem::AddRatePannel));
    assert!(f.windows().is_empty());
}

#[test]
fn trace_front_click() {
    let mut f = TraceFront::default();
    f.click(PannelMenuItem::AddRatePannel);
    assert_eq!(f.menu_items(), (PannelMenuItem::AddLinkPannel, PannelMenuItem::RemoveRatePannel));
    let lines: Vec<(String, String)> = f.windows().into_iter().map(|w| (w.title, w.label)).collect();
    assert_eq!(lines, vec![("RatePannel".to_string(), "12".to_string())]);
    assert_eq!(f.url(), "ws://127.0.0.1:8002");
}

#[test]
fn miti_trace_holds_its_fields() {
    let t = MitiTrace { direction: "upload".to_string(), rate: 3, text: 'c', roaming: true };
    assert_eq!(t.direction, "upload");
    assert_eq!(t.rate, 3);
    assert_eq!(t.text, 'c');
    assert!(t.roaming);
}
