use wfhelper::registry::{
    Capabilities, GlobalAd, IdleProtocol, InterfaceClass, Negotiation, NegotiationError,
    PowerProtocol,
};
use wfhelper::registry::classify_interface;
use wfhelper::session::{classify_session, SessionKind};
use wfhelper::effective_wait_ms;

fn ad(name: u32, interface: &str) -> GlobalAd {
    GlobalAd { name, interface: String::from(interface), version: 1 }
}

fn negotiate(ads: Vec<GlobalAd>) -> Result<Capabilities, NegotiationError> {
    let mut n = Negotiation::new();
    n.observe_all(&ads);
    n.finish()
}

#[test]
fn classify_recognises_all_interfaces() {
    assert_eq!(classify_interface("wl_output"), InterfaceClass::Output);
    assert_eq!(classify_interface("wl_seat"), InterfaceClass::Seat);
    assert_eq!(
        classify_interface("ext_idle_notifier_v1"),
        InterfaceClass::Idle(IdleProtocol::ExtIdleNotifier)
    );
    assert_eq!(
        classify_interface("org_kde_kwin_idle"),
        InterfaceClass::Idle(IdleProtocol::KdeKwinIdle)
    );
    assert_eq!(
        classify_interface("zwlr_output_power_manager_v1"),
        InterfaceClass::Power(PowerProtocol::WlrOutputPowerManager)
    );
    assert_eq!(
        classify_interface("org_kde_kwin_dpms_manager"),
        InterfaceClass::Power(PowerProtocol::KdeKwinDpms)
    );
    assert_eq!(classify_interface("wl_compositor"), InterfaceClass::Ignored);
    assert_eq!(classify_interface(""), InterfaceClass::Ignored);
}

#[test]
fn single_idle_ad_binds_that_one() {
    let caps = negotiate(vec![
        ad(1, "ext_idle_notifier_v1"),
        ad(2, "zwlr_output_power_manager_v1"),
        ad(3, "wl_seat"),
        ad(4, "wl_output"),
    ])
    .unwrap();
    assert_eq!(caps.idle, (IdleProtocol::ExtIdleNotifier, 1));

    let caps = negotiate(vec![
        ad(1, "org_kde_kwin_idle"),
        ad(2, "zwlr_output_power_manager_v1"),
        ad(3, "wl_seat"),
    ])
    .unwrap();
    assert_eq!(caps.idle, (IdleProtocol::KdeKwinIdle, 1));
}

#[test]
fn later_idle_ad_wins_the_slot() {
    let caps = negotiate(vec![
        ad(1, "ext_idle_notifier_v1"),
        ad(2, "org_kde_kwin_idle"),
        ad(3, "zwlr_output_power_manager_v1"),
        ad(4, "wl_seat"),
    ])
    .unwrap();
    assert_eq!(caps.idle, (IdleProtocol::KdeKwinIdle, 2));

    let caps = negotiate(vec![
        ad(1, "org_kde_kwin_idle"),
        ad(2, "ext_idle_notifier_v1"),
        ad(3, "zwlr_output_power_manager_v1"),
        ad(4, "wl_seat"),
    ])
    .unwrap();
    assert_eq!(caps.idle, (IdleProtocol::ExtIdleNotifier, 2));
}

#[test]
fn later_power_ad_wins_the_slot() {
    let caps = negotiate(vec![
        ad(1, "ext_idle_notifier_v1"),
        ad(2, "zwlr_output_power_manager_v1"),
        ad(3, "org_kde_kwin_dpms_manager"),
        ad(4, "wl_seat"),
    ])
    .unwrap();
    assert_eq!(caps.power, (PowerProtocol::KdeKwinDpms, 3));
}

#[test]
fn missing_idle_protocol_is_fatal() {
    let r = negotiate(vec![
        ad(1, "zwlr_output_power_manager_v1"),
        ad(2, "wl_seat"),
        ad(3, "wl_output"),
    ]);
    assert_eq!(r.err().unwrap(), NegotiationError::NoIdleProtocol);
}

#[test]
fn missing_power_protocol_is_fatal() {
    let r = negotiate(vec![ad(1, "ext_idle_notifier_v1"), ad(2, "wl_seat"), ad(3, "wl_output")]);
    assert_eq!(r.err().unwrap(), NegotiationError::NoOutputPowerProtocol);
}

#[test]
fn missing_seat_is_fatal() {
    let r = negotiate(vec![
        ad(1, "ext_idle_notifier_v1"),
        ad(2, "zwlr_output_power_manager_v1"),
        ad(3, "wl_output"),
    ]);
    assert_eq!(r.err().unwrap(), NegotiationError::NoSeat);
}

#[test]
fn empty_batch_fails_on_idle_first() {
    let r = negotiate(Vec::new());
    assert_eq!(r.err().unwrap(), NegotiationError::NoIdleProtocol);
}

#[test]
fn all_outputs_are_tracked_in_order() {
    let caps = negotiate(vec![
        ad(7, "wl_output"),
        ad(1, "ext_idle_notifier_v1"),
        ad(8, "wl_output"),
        ad(2, "org_kde_kwin_dpms_manager"),
        ad(3, "wl_seat"),
        ad(9, "wl_output"),
    ])
    .unwrap();
    assert_eq!(caps.outputs, vec![7, 8, 9]);
}

#[test]
fn last_seat_wins() {
    let caps = negotiate(vec![
        ad(1, "ext_idle_notifier_v1"),
        ad(2, "zwlr_output_power_manager_v1"),
        ad(3, "wl_seat"),
        ad(4, "wl_seat"),
    ])
    .unwrap();
    assert_eq!(caps.seat, 4);
}

#[test]
fn unrecognized_session_type_is_fatal() {
    assert_eq!(classify_session("wayland"), Some(SessionKind::Wayland));
    assert_eq!(classify_session("x11"), Some(SessionKind::X11));
    assert_eq!(classify_session("tty"), None);
    assert_eq!(classify_session(""), None);
    assert_eq!(classify_session("Wayland"), None);
}

#[test]
fn wait_time_defaults_to_half_a_second() {
    assert_eq!(effective_wait_ms(None), 500);
    assert_eq!(effective_wait_ms(Some(42)), 42);
    assert_eq!(effective_wait_ms(Some(0)), 0);
}
