use wfhelper::dispatch::{ArmCommand, DispatchLoop, IdleEvent, Phase};
use wfhelper::power::{OutputMode, PowerCommand};
use wfhelper::registry::{GlobalAd, IdleProtocol, Negotiation, PowerProtocol};

fn ad(name: u32, interface: &str) -> GlobalAd {
    GlobalAd { name, interface: String::from(interface), version: 1 }
}

fn negotiated(interfaces: &[(u32, &str)]) -> wfhelper::registry::Capabilities {
    let mut n = Negotiation::new();
    let ads: Vec<GlobalAd> = interfaces.iter().map(|(name, i)| ad(*name, i)).collect();
    n.observe_all(&ads);
    n.finish().unwrap()
}

#[test]
fn generic_protocols_one_output_cycle() {
    // Advertisement batch: ext idle notifier, wlr power manager, seat, one
    // output; timeout 500.
    let caps = negotiated(&[
        (1, "ext_idle_notifier_v1"),
        (2, "zwlr_output_power_manager_v1"),
        (3, "wl_seat"),
        (4, "wl_output"),
    ]);
    assert_eq!(caps.idle, (IdleProtocol::ExtIdleNotifier, 1));
    assert_eq!(caps.power, (PowerProtocol::WlrOutputPowerManager, 2));
    assert_eq!(caps.seat, 3);
    assert_eq!(caps.outputs, vec![4]);

    let (mut d, arm) = DispatchLoop::arm(caps, 500);
    assert_eq!(
        arm,
        ArmCommand {
            protocol: IdleProtocol::ExtIdleNotifier,
            notifier: 1,
            seat: 3,
            wait_ms: 500,
        }
    );
    assert!(d.should_continue());

    let acts = d.handle_event(IdleEvent::Idled);
    assert_eq!(acts.commands, vec![PowerCommand { output: 4, mode: OutputMode::Off }]);
    assert!(!acts.dispose);
    assert!(d.should_continue());

    let acts = d.handle_event(IdleEvent::Resumed);
    assert_eq!(acts.commands, vec![PowerCommand { output: 4, mode: OutputMode::On }]);
    assert!(acts.dispose);
    assert!(!d.should_continue());
    assert_eq!(d.phase, Phase::Draining);

    d.finish_drain();
    assert_eq!(d.phase, Phase::Done);
    assert_eq!(d.arm_count, d.dispose_count);
}

#[test]
fn vendor_protocols_two_output_cycle() {
    // Same external behaviour through the vendor-specific variants, with
    // two outputs and so two commands per event.
    let caps = negotiated(&[
        (1, "org_kde_kwin_idle"),
        (2, "org_kde_kwin_dpms_manager"),
        (3, "wl_seat"),
        (4, "wl_output"),
        (5, "wl_output"),
    ]);
    assert_eq!(caps.idle, (IdleProtocol::KdeKwinIdle, 1));
    assert_eq!(caps.power, (PowerProtocol::KdeKwinDpms, 2));

    let (mut d, arm) = DispatchLoop::arm(caps, 500);
    assert_eq!(arm.protocol, IdleProtocol::KdeKwinIdle);

    let acts = d.handle_event(IdleEvent::Idled);
    assert_eq!(
        acts.commands,
        vec![
            PowerCommand { output: 4, mode: OutputMode::Off },
            PowerCommand { output: 5, mode: OutputMode::Off },
        ]
    );
    assert!(!acts.dispose);

    let acts = d.handle_event(IdleEvent::Resumed);
    assert_eq!(
        acts.commands,
        vec![
            PowerCommand { output: 4, mode: OutputMode::On },
            PowerCommand { output: 5, mode: OutputMode::On },
        ]
    );
    assert!(acts.dispose);
    assert!(!d.should_continue());
}

#[test]
fn repeated_idle_events_keep_waiting() {
    let caps = negotiated(&[
        (1, "ext_idle_notifier_v1"),
        (2, "zwlr_output_power_manager_v1"),
        (3, "wl_seat"),
        (4, "wl_output"),
    ]);
    let (mut d, _arm) = DispatchLoop::arm(caps, 250);
    let mut disposals: u32 = 0;
    for _ in 0..3 {
        let acts = d.handle_event(IdleEvent::Idled);
        if acts.dispose {
            disposals += 1;
        }
        assert!(d.should_continue());
    }
    let acts = d.handle_event(IdleEvent::Resumed);
    if acts.dispose {
        disposals += 1;
    }
    assert!(!d.should_continue());
    // Exactly one disposal for the one arm call, however many idle events
    // came first.
    assert_eq!(disposals, 1);
    assert_eq!(d.arm_count, 1);
    assert_eq!(d.dispose_count, 1);
}

#[test]
fn off_then_on_is_two_commands_per_output() {
    let caps = negotiated(&[
        (1, "ext_idle_notifier_v1"),
        (2, "zwlr_output_power_manager_v1"),
        (3, "wl_seat"),
        (10, "wl_output"),
        (11, "wl_output"),
        (12, "wl_output"),
    ]);
    let offs = caps.set_all_outputs(OutputMode::Off);
    let ons = caps.set_all_outputs(OutputMode::On);
    let combined: Vec<PowerCommand> = offs.iter().chain(ons.iter()).copied().collect();
    assert_eq!(combined.len(), 2 * 3);
    for (k, output) in [10u32, 11, 12].iter().enumerate() {
        assert_eq!(combined[k], PowerCommand { output: *output, mode: OutputMode::Off });
        assert_eq!(combined[3 + k], PowerCommand { output: *output, mode: OutputMode::On });
    }
}

#[test]
fn no_outputs_means_no_commands() {
    let caps = negotiated(&[
        (1, "ext_idle_notifier_v1"),
        (2, "zwlr_output_power_manager_v1"),
        (3, "wl_seat"),
    ]);
    let (mut d, _arm) = DispatchLoop::arm(caps, 500);
    let acts = d.handle_event(IdleEvent::Idled);
    assert!(acts.commands.is_empty());
    let acts = d.handle_event(IdleEvent::Resumed);
    assert!(acts.commands.is_empty());
    assert!(acts.dispose);
}
