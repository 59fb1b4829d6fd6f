//! Capability registry: classifies the compositor's global-object
//! advertisements and accumulates at most one binding per capability slot.
//!
//! The compositor announces every global it offers in one initial burst.
//! Each advertisement names an interface; the registry recognises the two
//! idle-notifier families, the two output-power families, seats and outputs,
//! and ignores everything else.  A slot that two advertisements compete for
//! is bound to the later one (last-write-wins), since only one protocol
//! family can be used per invocation.

use vstd::prelude::*;
use crate::strutil::str_eq;

verus! {

/// The two supported idle-notification protocol families.
#[derive(Clone, Copy, Debug, PartialEq, Eq, Structural)]
pub enum IdleProtocol {
    /// The generic cross-desktop idle notifier.
    ExtIdleNotifier,
    /// The desktop-environment-specific idle-timeout manager.
    KdeKwinIdle,
}

/// The two supported output-power protocol families.
#[derive(Clone, Copy, Debug, PartialEq, Eq, Structural)]
pub enum PowerProtocol {
    /// The generic output-power manager.
    WlrOutputPowerManager,
    /// The desktop-environment-specific DPMS manager.
    KdeKwinDpms,
}

/// What one advertised interface name means to this helper.
#[derive(Clone, Copy, Debug, PartialEq, Eq, Structural)]
pub enum InterfaceClass {
    /// A physical output; all advertised outputs are tracked.
    Output,
    /// An input seat, used to observe user activity.
    Seat,
    /// An idle-notification provider of the given family.
    Idle(IdleProtocol),
    /// An output-power provider of the given family.
    Power(PowerProtocol),
    /// Anything this helper does not use.
    Ignored,
}

/// The classification of an interface name.
pub open spec fn classify_spec(s: Seq<char>) -> InterfaceClass {
    if s == "wl_output"@ {
        InterfaceClass::Output
    } else if s == "wl_seat"@ {
        InterfaceClass::Seat
    } else if s == "ext_idle_notifier_v1"@ {
        InterfaceClass::Idle(IdleProtocol::ExtIdleNotifier)
    } else if s == "org_kde_kwin_idle"@ {
        InterfaceClass::Idle(IdleProtocol::KdeKwinIdle)
    } else if s == "zwlr_output_power_manager_v1"@ {
        InterfaceClass::Power(PowerProtocol::WlrOutputPowerManager)
    } else if s == "org_kde_kwin_dpms_manager"@ {
        InterfaceClass::Power(PowerProtocol::KdeKwinDpms)
    } else {
        InterfaceClass::Ignored
    }
}

/// Classify one advertised interface name.
pub fn classify_interface(interface: &str) -> (r: InterfaceClass)
    ensures
        r == classify_spec(interface@),
{
    if str_eq(interface, "wl_output") {
        InterfaceClass::Output
    } else if str_eq(interface, "wl_seat") {
        InterfaceClass::Seat
    } else if str_eq(interface, "ext_idle_notifier_v1") {
        InterfaceClass::Idle(IdleProtocol::ExtIdleNotifier)
    } else if str_eq(interface, "org_kde_kwin_idle") {
        InterfaceClass::Idle(IdleProtocol::KdeKwinIdle)
    } else if str_eq(interface, "zwlr_output_power_manager_v1") {
        InterfaceClass::Power(PowerProtocol::WlrOutputPowerManager)
    } else if str_eq(interface, "org_kde_kwin_dpms_manager") {
        InterfaceClass::Power(PowerProtocol::KdeKwinDpms)
    } else {
        InterfaceClass::Ignored
    }
}

/// One global advertisement: a connection-scoped numeric name (the opaque
/// handle a client binds by), the interface it implements, and its version.
#[derive(Debug)]
pub struct GlobalAd {
    pub name: u32,
    pub interface: String,
    pub version: u32,
}

impl View for GlobalAd {
    type V = AdView;

    open spec fn view(&self) -> AdView {
        AdView { name: self.name, interface: self.interface@, version: self.version }
    }
}

/// The mathematical content of one advertisement.
pub struct AdView {
    pub name: u32,
    pub interface: Seq<char>,
    pub version: u32,
}

/// The mathematical content of the negotiation state: one optional binding
/// per capability slot, and the set of outputs seen so far, in advertisement
/// order.
#[verifier::ext_equal]
pub struct NegotiationView {
    pub idle: Option<(IdleProtocol, u32)>,
    pub power: Option<(PowerProtocol, u32)>,
    pub seat: Option<u32>,
    pub outputs: Seq<u32>,
}

/// The state before any advertisement has been observed.
pub open spec fn empty_negotiation() -> NegotiationView {
    NegotiationView { idle: None, power: None, seat: None, outputs: Seq::empty() }
}

/// How one advertisement updates the negotiation state.
pub open spec fn observe_spec(v: NegotiationView, interface: Seq<char>, name: u32)
    -> NegotiationView {
    match classify_spec(interface) {
        InterfaceClass::Output => NegotiationView { outputs: v.outputs.push(name), ..v },
        InterfaceClass::Seat => NegotiationView { seat: Some(name), ..v },
        InterfaceClass::Idle(p) => NegotiationView { idle: Some((p, name)), ..v },
        InterfaceClass::Power(p) => NegotiationView { power: Some((p, name)), ..v },
        InterfaceClass::Ignored => v,
    }
}

/// The state after observing a whole advertisement batch, in order, from a
/// given starting state.
pub open spec fn observe_batch_spec(v: NegotiationView, ads: Seq<AdView>) -> NegotiationView
    decreases ads.len(),
{
    if ads.len() == 0 {
        v
    } else {
        observe_spec(
            observe_batch_spec(v, ads.drop_last()),
            ads.last().interface,
            ads.last().name,
        )
    }
}

/// The negotiation state after a whole advertisement batch, in order.
pub open spec fn negotiate_spec(ads: Seq<AdView>) -> NegotiationView {
    observe_batch_spec(empty_negotiation(), ads)
}

/// Whether an advertisement offers an idle-notification provider.
pub open spec fn is_idle_ad(a: AdView) -> bool {
    classify_spec(a.interface) is Idle
}

/// Whether an advertisement offers an output-power provider.
pub open spec fn is_power_ad(a: AdView) -> bool {
    classify_spec(a.interface) is Power
}

/// The idle-slot binding an advertisement would produce, if any.
pub open spec fn idle_binding(a: AdView) -> Option<(IdleProtocol, u32)> {
    match classify_spec(a.interface) {
        InterfaceClass::Idle(p) => Some((p, a.name)),
        _ => None,
    }
}

/// The power-slot binding an advertisement would produce, if any.
pub open spec fn power_binding(a: AdView) -> Option<(PowerProtocol, u32)> {
    match classify_spec(a.interface) {
        InterfaceClass::Power(p) => Some((p, a.name)),
        _ => None,
    }
}

/// The names of the advertised outputs, in advertisement order.
pub open spec fn output_names(ads: Seq<AdView>) -> Seq<u32>
    decreases ads.len(),
{
    if ads.len() == 0 {
        Seq::empty()
    } else {
        output_names(ads.drop_last()) + (if classify_spec(ads.last().interface)
            is Output {
            seq![ads.last().name]
        } else {
            Seq::empty()
        })
    }
}

/// A batch without an idle-notifier advertisement leaves the idle slot as it
/// was.
pub proof fn lemma_no_idle_ad_leaves_slot(v: NegotiationView, ads: Seq<AdView>)
    requires
        forall|i: int| 0 <= i < ads.len() ==> !is_idle_ad(#[trigger] ads[i]),
    ensures
        observe_batch_spec(v, ads).idle == v.idle,
    decreases ads.len(),
{
    if ads.len() > 0 {
        lemma_no_idle_ad_leaves_slot(v, ads.drop_last());
    }
}

/// A batch without an output-power advertisement leaves the power slot as it
/// was.
pub proof fn lemma_no_power_ad_leaves_slot(v: NegotiationView, ads: Seq<AdView>)
    requires
        forall|i: int| 0 <= i < ads.len() ==> !is_power_ad(#[trigger] ads[i]),
    ensures
        observe_batch_spec(v, ads).power == v.power,
    decreases ads.len(),
{
    if ads.len() > 0 {
        lemma_no_power_ad_leaves_slot(v, ads.drop_last());
    }
}

/// The idle slot after a batch is bound by the batch's last idle-notifier
/// advertisement.
pub proof fn lemma_idle_slot_is_last_idle_ad(v: NegotiationView, ads: Seq<AdView>, i: int)
    requires
        0 <= i < ads.len(),
        is_idle_ad(ads[i]),
        forall|j: int| i < j < ads.len() ==> !is_idle_ad(#[trigger] ads[j]),
    ensures
        observe_batch_spec(v, ads).idle == idle_binding(ads[i]),
    decreases ads.len(),
{
    if i == ads.len() - 1 {
        assert(ads.last() == ads[i]);
    } else {
        lemma_idle_slot_is_last_idle_ad(v, ads.drop_last(), i);
        assert(ads.drop_last()[i] == ads[i]);
        assert(!is_idle_ad(ads.last()));
    }
}

/// The power slot after a batch is bound by the batch's last output-power
/// advertisement.
pub proof fn lemma_power_slot_is_last_power_ad(v: NegotiationView, ads: Seq<AdView>, i: int)
    requires
        0 <= i < ads.len(),
        is_power_ad(ads[i]),
        forall|j: int| i < j < ads.len() ==> !is_power_ad(#[trigger] ads[j]),
    ensures
        observe_batch_spec(v, ads).power == power_binding(ads[i]),
    decreases ads.len(),
{
    if i == ads.len() - 1 {
        assert(ads.last() == ads[i]);
    } else {
        lemma_power_slot_is_last_power_ad(v, ads.drop_last(), i);
        assert(ads.drop_last()[i] == ads[i]);
        assert(!is_power_ad(ads.last()));
    }
}

/// Law: a batch with exactly one idle-notifier advertisement binds that one,
/// and no other, to the idle slot.
pub proof fn lemma_unique_idle_ad_binds_it(ads: Seq<AdView>, i: int)
    requires
        0 <= i < ads.len(),
        is_idle_ad(ads[i]),
        forall|j: int| 0 <= j < ads.len() && j != i ==> !is_idle_ad(#[trigger] ads[j]),
    ensures
        negotiate_spec(ads).idle == idle_binding(ads[i]),
{
    lemma_idle_slot_is_last_idle_ad(empty_negotiation(), ads, i);
}

/// Law: when a batch advertises both idle-notifier families, the
/// later-advertised one wins the idle slot.
pub proof fn lemma_later_idle_ad_wins(ads: Seq<AdView>, i: int, j: int)
    requires
        0 <= i < j < ads.len(),
        is_idle_ad(ads[i]),
        is_idle_ad(ads[j]),
        forall|k: int| j < k < ads.len() ==> !is_idle_ad(#[trigger] ads[k]),
    ensures
        negotiate_spec(ads).idle == idle_binding(ads[j]),
{
    lemma_idle_slot_is_last_idle_ad(empty_negotiation(), ads, j);
}

/// Law: a batch with no idle-notifier advertisement leaves the idle slot
/// unbound, so negotiation can only fail with the no-idle-protocol error;
/// a batch with an idle-notifier but no output-power advertisement leaves
/// the power slot unbound, so it can only fail with the no-power error.
/// `Negotiation::finish` turns an unbound slot into exactly that error, and
/// arming is only possible on the `Capabilities` a successful `finish`
/// returns.
pub proof fn lemma_missing_capability_fails(ads: Seq<AdView>)
    ensures
        (forall|i: int| 0 <= i < ads.len() ==> !is_idle_ad(#[trigger] ads[i]))
            ==> negotiate_spec(ads).idle is None,
        (forall|i: int| 0 <= i < ads.len() ==> !is_power_ad(#[trigger] ads[i]))
            ==> negotiate_spec(ads).power is None,
{
    if forall|i: int| 0 <= i < ads.len() ==> !is_idle_ad(#[trigger] ads[i]) {
        lemma_no_idle_ad_leaves_slot(empty_negotiation(), ads);
    }
    if forall|i: int| 0 <= i < ads.len() ==> !is_power_ad(#[trigger] ads[i]) {
        lemma_no_power_ad_leaves_slot(empty_negotiation(), ads);
    }
}

/// Every advertised output is tracked: the output list after a batch is the
/// list it started with, extended by the advertised output names in order.
pub proof fn lemma_outputs_collected(v: NegotiationView, ads: Seq<AdView>)
    ensures
        observe_batch_spec(v, ads).outputs == v.outputs + output_names(ads),
    decreases ads.len(),
{
    if ads.len() == 0 {
        assert(v.outputs + output_names(ads) =~= v.outputs);
    } else {
        lemma_outputs_collected(v, ads.drop_last());
        assert(v.outputs + output_names(ads) =~= (v.outputs + output_names(ads.drop_last()))
            + (if classify_spec(ads.last().interface) is Output {
            seq![ads.last().name]
        } else {
            Seq::empty()
        }));
        if classify_spec(ads.last().interface) is Output {
            assert(observe_batch_spec(v, ads).outputs =~= observe_batch_spec(
                v,
                ads.drop_last(),
            ).outputs + seq![ads.last().name]);
        } else {
            assert(observe_batch_spec(v, ads).outputs =~= observe_batch_spec(
                v,
                ads.drop_last(),
            ).outputs + Seq::empty());
        }
    }
}

/// Mutable negotiation context, owned by one capability-registry run and
/// discarded once negotiation completes.
pub struct Negotiation {
    pub idle: Option<(IdleProtocol, u32)>,
    pub power: Option<(PowerProtocol, u32)>,
    pub seat: Option<u32>,
    pub outputs: Vec<u32>,
}

impl View for Negotiation {
    type V = NegotiationView;

    open spec fn view(&self) -> NegotiationView {
        NegotiationView {
            idle: self.idle,
            power: self.power,
            seat: self.seat,
            outputs: self.outputs@,
        }
    }
}

/// Why negotiation can fail: a required capability slot stayed unbound.
#[derive(Clone, Copy, Debug, PartialEq, Eq, Structural)]
pub enum NegotiationError {
    /// No supported idle-detection protocol was advertised.
    NoIdleProtocol,
    /// No supported output-power protocol was advertised.
    NoOutputPowerProtocol,
    /// No input seat was advertised, so idle detection has nothing to watch.
    NoSeat,
}

/// The capabilities a successful negotiation produces: every required slot
/// bound, plus the (possibly empty) list of outputs.
pub struct Capabilities {
    pub idle: (IdleProtocol, u32),
    pub power: (PowerProtocol, u32),
    pub seat: u32,
    pub outputs: Vec<u32>,
}

impl Negotiation {
    /// A fresh context with every slot unbound.
    pub fn new() -> (r: Self)
        ensures
            r@ == empty_negotiation(),
    {
        let r = Negotiation { idle: None, power: None, seat: None, outputs: Vec::new() };
        proof {
            assert(r@.outputs =~= empty_negotiation().outputs);
            assert(r@ =~= empty_negotiation());
        }
        r
    }

    /// Record one advertisement: bind the slot its interface belongs to,
    /// overwriting any earlier binding of the same slot.
    pub fn observe(&mut self, interface: &str, name: u32)
        ensures
            final(self)@ == observe_spec(old(self)@, interface@, name),
    {
        match classify_interface(interface) {
            InterfaceClass::Output => self.outputs.push(name),
            InterfaceClass::Seat => self.seat = Some(name),
            InterfaceClass::Idle(p) => self.idle = Some((p, name)),
            InterfaceClass::Power(p) => self.power = Some((p, name)),
            InterfaceClass::Ignored => (),
        }
        proof {
            assert(self@ =~= observe_spec(old(self)@, interface@, name));
        }
    }

    /// Record a whole advertisement batch, in order.
    pub fn observe_all(&mut self, ads: &Vec<GlobalAd>)
        ensures
            final(self)@ == observe_batch_spec(old(self)@, ads@.map_values(|ad: GlobalAd| ad@)),
    {
        let ghost views = ads@.map_values(|ad: GlobalAd| ad@);
        let mut k: usize = 0;
        while k < ads.len()
            invariant
                views == ads@.map_values(|ad: GlobalAd| ad@),
                k <= ads@.len(),
                self@ == observe_batch_spec(old(self)@, views.take(k as int)),
            decreases ads@.len() - k,
        {
            proof {
                assert(views.take(k + 1).drop_last() =~= views.take(k as int));
                assert(views.take(k + 1).last() == ads@[k as int]@);
            }
            self.observe(ads[k].interface.as_str(), ads[k].name);
            k += 1;
        }
        proof {
            assert(views.take(views.len() as int) =~= views);
        }
    }

    /// Check that every required slot is bound and hand the bindings out.
    /// The unbound slots are reported in a fixed order: idle detection
    /// first, then output power, then the seat.
    pub fn finish(self) -> (r: Result<Capabilities, NegotiationError>)
        ensures
            self@.idle is None <==> r == Err::<Capabilities, _>(NegotiationError::NoIdleProtocol),
            self@.idle is Some && self@.power is None <==> r == Err::<Capabilities, _>(
                NegotiationError::NoOutputPowerProtocol,
            ),
            self@.idle is Some && self@.power is Some && self@.seat is None <==> r == Err::<
                Capabilities,
                _,
            >(NegotiationError::NoSeat),
            self@.idle is Some && self@.power is Some && self@.seat is Some <==> r is Ok,
            r matches Ok(c) ==> {
                &&& Some(c.idle) == self@.idle
                &&& Some(c.power) == self@.power
                &&& Some(c.seat) == self@.seat
                &&& c.outputs@ == self@.outputs
            },
    {
        match (self.idle, self.power, self.seat) {
            (None, _, _) => Err(NegotiationError::NoIdleProtocol),
            (Some(_), None, _) => Err(NegotiationError::NoOutputPowerProtocol),
            (Some(_), Some(_), None) => Err(NegotiationError::NoSeat),
            (Some(idle), Some(power), Some(seat)) => Ok(
                Capabilities { idle, power, seat, outputs: self.outputs },
            ),
        }
    }
}

} // verus!
