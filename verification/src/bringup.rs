//! Bringing up the ports of the VSC7448 switch.
//!
//! A bring-up is a fixed list of actions on the switch. Its driver performs them one
//! at a time, over SPI, and reports how each one went; the first failure ends it.

use crate::dev::{Dev10g, Dev10gBlock, Dev1gBlock, DevGeneric, RegisterLayout};
use vstd::prelude::*;

verus! {

/// The registers of a DEV1G that a bring-up sets.
#[derive(Copy, Clone, Debug, PartialEq, Eq, Structural)]
pub enum Dev1gRegister {
    MacModeCfg,
    MacIfgCfg,
    MacEnaCfg,
    Pcs1gAnegCfg,
    Pcs1gSdCfg,
    Pcs1gCfg,
    DevRstCtrl,
}

/// The registers of a DEV10G that a bring-up sets.
#[derive(Copy, Clone, Debug, PartialEq, Eq, Structural)]
pub enum Dev10gRegister {
    PcsXauiSdCfg,
    PcsXauiCfg,
    MacEnaCfg,
    DevRstCtrl,
}

/// A register of the switch.
#[derive(Copy, Clone, Debug, PartialEq, Eq, Structural)]
pub enum Register {
    Dev1g(Dev1gBlock, Dev1gRegister),
    Dev10g(Dev10gBlock, Dev10gRegister),
    /// `XFI_MODE` of the XGXFI with this index.
    XfiMode(u32),
    /// `SWITCH_PORT_MODE` of the port with this index.
    SwitchPortMode(u32),
}

/// A field of a register.
#[derive(Copy, Clone, Debug, PartialEq, Eq, Structural)]
pub enum Field {
    FdxEna,
    GigaModeEna,
    TxIfg,
    RxIfg1,
    RxIfg2,
    SwResolveEna,
    SdEna,
    PcsEna,
    TxEna,
    RxEna,
    SpeedSel,
    PortEna,
    FwdUrgency,
    SwRst,
    Endian,
    SwEna,
    PcsRxRst,
    PcsTxRst,
    MacRxRst,
    MacTxRst,
}

/// A value for a field of a register.
#[derive(Copy, Clone, Debug, PartialEq, Eq, Structural)]
pub struct FieldValue {
    pub field: Field,
    pub value: u32,
}

/// Something to do to the switch.
#[derive(Debug, PartialEq, Eq)]
pub enum Action {
    /// Flush the port of this device.
    Flush1g(DevGeneric),
    /// Flush the port of this device.
    Flush10g(Dev10g),
    /// Apply the SERDES configuration to the 10G SERDES with this index.
    ApplySerdes10g(u32),
    /// Read the register, set these fields, and write it back.
    Modify(Register, Vec<FieldValue>),
    /// Write the register with these fields set, regardless of what it holds.
    Write(Register, Vec<FieldValue>),
}

/// What an `Action` does.
#[verifier::ext_equal]
pub enum ActionView {
    Flush1g(DevGeneric),
    Flush10g(Dev10g),
    ApplySerdes10g(u32),
    Modify(Register, Seq<FieldValue>),
    Write(Register, Seq<FieldValue>),
}

impl View for Action {
    type V = ActionView;

    open spec fn view(&self) -> ActionView {
        match *self {
            Action::Flush1g(dev) => ActionView::Flush1g(dev),
            Action::Flush10g(dev) => ActionView::Flush10g(dev),
            Action::ApplySerdes10g(index) => ActionView::ApplySerdes10g(index),
            Action::Modify(register, fields) => ActionView::Modify(register, fields@),
            Action::Write(register, fields) => ActionView::Write(register, fields@),
        }
    }
}

/// The setting of `field` to `value`.
pub open spec fn setting(field: Field, value: u32) -> FieldValue {
    FieldValue { field, value }
}

impl FieldValue {
    fn new(field: Field, value: u32) -> (f: Self)
        ensures
            f == setting(field, value),
    {
        FieldValue { field, value }
    }
}

/// How to bring up a DEV1G or DEV2G5 in SGMII mode, at 1G and full duplex.
pub open spec fn sgmii_plan(dev: DevGeneric, layout: RegisterLayout) -> Seq<ActionView> {
    let block = dev.block(layout);
    seq![
        // Flush the port before doing anything else
        ActionView::Flush1g(dev),
        // Enable full duplex mode and GIGA SPEED
        ActionView::Modify(
            Register::Dev1g(block, Dev1gRegister::MacModeCfg),
            seq![setting(Field::FdxEna, 1), setting(Field::GigaModeEna, 1)],
        ),
        // These are speed-dependent options and aren't fully documented in the
        // manual; these values are for 1G, full duplex operation.
        ActionView::Modify(
            Register::Dev1g(block, Dev1gRegister::MacIfgCfg),
            seq![setting(Field::TxIfg, 4), setting(Field::RxIfg1, 0), setting(Field::RxIfg2, 0)],
        ),
        // Must be set in SGMII mode. It allows a link to be set up by software,
        // even if autonegotiation fails.
        ActionView::Modify(
            Register::Dev1g(block, Dev1gRegister::Pcs1gAnegCfg),
            seq![setting(Field::SwResolveEna, 1)],
        ),
        // Configure signal detect line, which is dependent on the port setup
        ActionView::Modify(
            Register::Dev1g(block, Dev1gRegister::Pcs1gSdCfg),
            seq![setting(Field::SdEna, 0)],
        ),
        // Enable the PCS!
        ActionView::Modify(
            Register::Dev1g(block, Dev1gRegister::Pcs1gCfg),
            seq![setting(Field::PcsEna, 1)],
        ),
        // Turn on the MAC!
        ActionView::Write(
            Register::Dev1g(block, Dev1gRegister::MacEnaCfg),
            seq![setting(Field::TxEna, 1), setting(Field::RxEna, 1)],
        ),
        // Take MAC, Port, Phy (intern), and PCS (SGMII) clocks out of
        // reset, turning on a 1G port data rate.
        ActionView::Write(
            Register::Dev1g(block, Dev1gRegister::DevRstCtrl),
            seq![setting(Field::SpeedSel, 2)],
        ),
        // The urgency is different based on speed
        ActionView::Modify(
            Register::SwitchPortMode(dev.port_index() as u32),
            seq![setting(Field::PortEna, 1), setting(Field::FwdUrgency, 104)],
        ),
    ]
}

/// How to bring up a DEV10G in SFI mode.
pub open spec fn sfi_plan(dev: Dev10g) -> Seq<ActionView> {
    let block = Dev10gBlock(dev@);
    seq![
        ActionView::Modify(
            Register::XfiMode(dev@),
            seq![setting(Field::SwRst, 0), setting(Field::Endian, 1), setting(Field::SwEna, 1)],
        ),
        // Bringing up a 10G SERDES is _hard_
        ActionView::ApplySerdes10g(dev@),
        ActionView::Flush10g(dev),
        // Handle signal detect
        ActionView::Modify(
            Register::Dev10g(block, Dev10gRegister::PcsXauiSdCfg),
            seq![setting(Field::SdEna, 0)],
        ),
        // Enable SFI PCS
        ActionView::Modify(
            Register::Dev10g(block, Dev10gRegister::PcsXauiCfg),
            seq![setting(Field::PcsEna, 1)],
        ),
        ActionView::Modify(
            Register::Dev10g(block, Dev10gRegister::MacEnaCfg),
            seq![setting(Field::RxEna, 1), setting(Field::TxEna, 1)],
        ),
        // The last one selects SFI
        ActionView::Modify(
            Register::Dev10g(block, Dev10gRegister::DevRstCtrl),
            seq![
                setting(Field::PcsRxRst, 0),
                setting(Field::PcsTxRst, 0),
                setting(Field::MacRxRst, 0),
                setting(Field::MacTxRst, 0),
                setting(Field::SpeedSel, 7),
            ],
        ),
        ActionView::Modify(
            Register::SwitchPortMode(dev.port_index() as u32),
            seq![setting(Field::PortEna, 1), setting(Field::FwdUrgency, 9)],
        ),
    ]
}

/// What is left to do once the first of the actions in `todo` had this outcome.
pub open spec fn after<E>(todo: Seq<ActionView>, outcome: Result<(), E>) -> Seq<ActionView> {
    match outcome {
        Ok(()) => todo.drop_first(),
        Err(_) => Seq::empty(),
    }
}

/// A bring-up in progress.
pub struct Bringup {
    actions: Vec<Action>,
    next: usize,
}

impl View for Bringup {
    type V = Seq<ActionView>;

    /// What is left to do, in order.
    closed spec fn view(&self) -> Seq<ActionView> {
        Seq::new(
            (self.actions@.len() - self.next) as nat,
            |i: int| self.actions@[self.next + i]@,
        )
    }
}

impl Bringup {
    #[verifier::type_invariant]
    spec fn wf(self) -> bool {
        self.next <= self.actions@.len()
    }

    fn start(actions: Vec<Action>) -> (b: Self)
        ensures
            b@ == Seq::new(actions@.len(), |i: int| actions@[i]@),
    {
        Bringup { actions, next: 0 }
    }

    /// The action to perform next; `None` when the bring-up is over.
    pub fn next_action(&self) -> (action: Option<&Action>)
        ensures
            match action {
                Some(action) => self@.len() > 0 && action@ == self@[0],
                None => self@.len() == 0,
            },
    {
        proof {
            use_type_invariant(self);
        }
        if self.next < self.actions.len() {
            Some(&self.actions[self.next])
        } else {
            None
        }
    }

    /// Takes note of how the next action went. Its failure ends the bring-up, and is
    /// handed back.
    pub fn record<E>(&mut self, outcome: Result<(), E>) -> (r: Result<(), E>)
        requires
            old(self)@.len() > 0,
        ensures
            final(self)@ == after(old(self)@, outcome),
            r == outcome,
    {
        proof {
            use_type_invariant(&*self);
        }
        let len: usize = self.actions.len();
        assert(self.next < len);
        if outcome.is_ok() {
            self.next = self.next + 1;
            assert(self@ =~= old(self)@.drop_first());
        } else {
            self.next = len;
        }
        outcome
    }
}

/// Starts to bring up a DEV1G or DEV2G5 in SGMII mode.
pub fn dev1g_init_sgmii(dev: DevGeneric, layout: RegisterLayout) -> (b: Bringup)
    requires
        dev.addressable(layout),
        dev.port_index() <= u32::MAX,
    ensures
        b@ == sgmii_plan(dev, layout),
{
    let dev1g = dev.regs(layout);
    let port: u32 = dev.port();
    let actions = vec![
        Action::Flush1g(dev),
        Action::Modify(
            Register::Dev1g(dev1g, Dev1gRegister::MacModeCfg),
            vec![FieldValue::new(Field::FdxEna, 1), FieldValue::new(Field::GigaModeEna, 1)],
        ),
        Action::Modify(
            Register::Dev1g(dev1g, Dev1gRegister::MacIfgCfg),
            vec![FieldValue::new(Field::TxIfg, 4), FieldValue::new(Field::RxIfg1, 0), FieldValue::new(Field::RxIfg2, 0)],
        ),
        Action::Modify(
            Register::Dev1g(dev1g, Dev1gRegister::Pcs1gAnegCfg),
            vec![FieldValue::new(Field::SwResolveEna, 1)],
        ),
        Action::Modify(
            Register::Dev1g(dev1g, Dev1gRegister::Pcs1gSdCfg),
            vec![FieldValue::new(Field::SdEna, 0)],
        ),
        Action::Modify(
            Register::Dev1g(dev1g, Dev1gRegister::Pcs1gCfg),
            vec![FieldValue::new(Field::PcsEna, 1)],
        ),
        Action::Write(
            Register::Dev1g(dev1g, Dev1gRegister::MacEnaCfg),
            vec![FieldValue::new(Field::TxEna, 1), FieldValue::new(Field::RxEna, 1)],
        ),
        Action::Write(
            Register::Dev1g(dev1g, Dev1gRegister::DevRstCtrl),
            vec![FieldValue::new(Field::SpeedSel, 2)],
        ),
        Action::Modify(
            Register::SwitchPortMode(port),
            vec![FieldValue::new(Field::PortEna, 1), FieldValue::new(Field::FwdUrgency, 104)],
        ),
    ];
    let b = Bringup::start(actions);
    proof {
        let plan = sgmii_plan(dev, layout);
        assert forall|i: int| 0 <= i < plan.len() implies #[trigger] b@[i] == plan[i] by {
            assert(b@[i] =~~= plan[i]);
        }
    }
    b
}

/// Starts to bring up a DEV10G in SFI mode.
pub fn dev10g_init_sfi(dev: Dev10g) -> (b: Bringup)
    ensures
        b@ == sfi_plan(dev),
{
    let index: u32 = dev.index();
    let dev10g = dev.regs();
    let port: u32 = dev.port();
    let actions = vec![
        Action::Modify(
            Register::XfiMode(index),
            vec![
                FieldValue::new(Field::SwRst, 0),
                FieldValue::new(Field::Endian, 1),
                FieldValue::new(Field::SwEna, 1),
            ],
        ),
        Action::ApplySerdes10g(index),
        Action::Flush10g(dev),
        Action::Modify(
            Register::Dev10g(dev10g, Dev10gRegister::PcsXauiSdCfg),
            vec![FieldValue::new(Field::SdEna, 0)],
        ),
        Action::Modify(
            Register::Dev10g(dev10g, Dev10gRegister::PcsXauiCfg),
            vec![FieldValue::new(Field::PcsEna, 1)],
        ),
        Action::Modify(
            Register::Dev10g(dev10g, Dev10gRegister::MacEnaCfg),
            vec![FieldValue::new(Field::RxEna, 1), FieldValue::new(Field::TxEna, 1)],
        ),
        Action::Modify(
            Register::Dev10g(dev10g, Dev10gRegister::DevRstCtrl),
            vec![
                FieldValue::new(Field::PcsRxRst, 0),
                FieldValue::new(Field::PcsTxRst, 0),
                FieldValue::new(Field::MacRxRst, 0),
                FieldValue::new(Field::MacTxRst, 0),
                FieldValue::new(Field::SpeedSel, 7),
            ],
        ),
        Action::Modify(
            Register::SwitchPortMode(port),
            vec![FieldValue::new(Field::PortEna, 1), FieldValue::new(Field::FwdUrgency, 9)],
        ),
    ];
    let b = Bringup::start(actions);
    proof {
        let plan = sfi_plan(dev);
        assert forall|i: int| 0 <= i < plan.len() implies #[trigger] b@[i] == plan[i] by {
            assert(b@[i] =~~= plan[i]);
        }
    }
    b
}

/// The actions that a driver performs, and what it returns, when `todo` is to be
/// done and the `i`th action performed has the outcome `outcomes[i]`.
pub open spec fn drive<E>(todo: Seq<ActionView>, outcomes: Seq<Result<(), E>>) -> (
    Seq<ActionView>,
    Result<(), E>,
)
    decreases todo.len(),
{
    if todo.len() == 0 {
        (Seq::empty(), Ok(()))
    } else {
        let rest = drive(after(todo, outcomes[0]), outcomes.drop_first());
        match outcomes[0] {
            Ok(()) => (seq![todo[0]] + rest.0, rest.1),
            Err(e) => (seq![todo[0]] + rest.0, Err(e)),
        }
    }
}

/// A bring-up in which nothing fails performs its whole plan, in order, and succeeds.
pub proof fn law_all_performed<E>(plan: Seq<ActionView>, outcomes: Seq<Result<(), E>>)
    requires
        outcomes.len() == plan.len(),
        forall|i: int| 0 <= i < outcomes.len() ==> outcomes[i] is Ok,
    ensures
        drive(plan, outcomes) == (plan, Ok::<(), E>(())),
    decreases plan.len(),
{
    if plan.len() == 0 {
        assert(plan =~= Seq::empty());
    } else {
        law_all_performed(plan.drop_first(), outcomes.drop_first());
        assert(outcomes[0] is Ok);
        assert(seq![plan[0]] + plan.drop_first() =~= plan);
    }
}

/// A bring-up performs its plan in order up to and including the first action that
/// fails, nothing after that one, and returns that failure.
pub proof fn law_stops_at_first_failure<E>(
    plan: Seq<ActionView>,
    outcomes: Seq<Result<(), E>>,
    k: int,
)
    requires
        outcomes.len() == plan.len(),
        0 <= k < plan.len(),
        outcomes[k] is Err,
        forall|i: int| 0 <= i < k ==> outcomes[i] is Ok,
    ensures
        drive(plan, outcomes) == (plan.take(k + 1), outcomes[k]),
    decreases k,
{
    reveal_with_fuel(drive, 2);
    if k == 0 {
        assert(seq![plan[0]] + Seq::empty() =~= plan.take(1));
    } else {
        assert(outcomes[0] is Ok);
        law_stops_at_first_failure(plan.drop_first(), outcomes.drop_first(), k - 1);
        assert(seq![plan[0]] + plan.drop_first().take(k) =~= plan.take(k + 1));
    }
}

/// Whether `action` sets this field of this register to this value.
pub open spec fn sets(action: ActionView, register: Register, field: Field, value: u32) -> bool {
    match action {
        ActionView::Modify(r, fields) | ActionView::Write(r, fields) => r == register
            && fields.contains(setting(field, value)),
        _ => false,
    }
}

/// Bringing up a DEV1G or DEV2G5 flushes its port before doing anything else, and
/// enables that port last.
pub proof fn law_sgmii_port_enabled_last(dev: DevGeneric, layout: RegisterLayout, i: int)
    requires
        0 <= i < sgmii_plan(dev, layout).len(),
    ensures
        sgmii_plan(dev, layout)[0] == ActionView::Flush1g(dev),
        sets(
            sgmii_plan(dev, layout)[i],
            Register::SwitchPortMode(dev.port_index() as u32),
            Field::PortEna,
            1,
        ) <==> i == sgmii_plan(dev, layout).len() - 1,
{
    let fields = seq![setting(Field::PortEna, 1), setting(Field::FwdUrgency, 104)];
    assert(fields[0] == setting(Field::PortEna, 1));
}

/// Bringing up a DEV10G flushes its port before it touches the registers of the
/// device, and enables that port last.
pub proof fn law_sfi_port_enabled_last(dev: Dev10g, i: int)
    requires
        0 <= i < sfi_plan(dev).len(),
    ensures
        sfi_plan(dev)[2] == ActionView::Flush10g(dev),
        sfi_plan(dev)[i] matches ActionView::Modify(Register::Dev10g(_, _), _) ==> i > 2,
        sets(
            sfi_plan(dev)[i],
            Register::SwitchPortMode(dev.port_index() as u32),
            Field::PortEna,
            1,
        ) <==> i == sfi_plan(dev).len() - 1,
{
    let fields = seq![setting(Field::PortEna, 1), setting(Field::FwdUrgency, 9)];
    assert(fields[0] == setting(Field::PortEna, 1));
}

/// An action is viewed as what it is, with the fields that it sets in their order.
pub proof fn law_action_viewed_as_is(action: Action)
    ensures
        action is Flush1g <==> action@ is Flush1g,
        action is Flush10g <==> action@ is Flush10g,
        action is ApplySerdes10g <==> action@ is ApplySerdes10g,
        action is Modify <==> action@ is Modify,
        action is Write <==> action@ is Write,
        action matches Action::Flush1g(dev) ==> action@->Flush1g_0 == dev,
        action matches Action::Flush10g(dev) ==> action@->Flush10g_0 == dev,
        action matches Action::ApplySerdes10g(index) ==> action@->ApplySerdes10g_0 == index,
        action matches Action::Modify(register, fields) ==> action@->Modify_0 == register
            && action@->Modify_1 == fields@,
        action matches Action::Write(register, fields) ==> action@->Write_0 == register
            && action@->Write_1 == fields@,
{
}

/// Whether `action` accesses this register.
pub open spec fn accesses(action: ActionView, register: Register) -> bool {
    match action {
        ActionView::Modify(r, _) | ActionView::Write(r, _) => r == register,
        _ => false,
    }
}

/// Whether some action of `plan` sets this field of this register to this value.
pub open spec fn plan_sets(
    plan: Seq<ActionView>,
    register: Register,
    field: Field,
    value: u32,
) -> bool {
    exists|i: int| 0 <= i < plan.len() && #[trigger] sets(plan[i], register, field, value)
}

/// Which action of an SGMII bring-up sets the field.
spec fn sgmii_step(field: Field) -> int {
    match field {
        Field::FdxEna | Field::GigaModeEna => 1,
        Field::TxIfg | Field::RxIfg1 | Field::RxIfg2 => 2,
        Field::SwResolveEna => 3,
        Field::SdEna => 4,
        Field::PcsEna => 5,
        Field::TxEna | Field::RxEna => 6,
        Field::SpeedSel => 7,
        _ => 8,
    }
}

/// A list of settings that has this one.
proof fn lemma_has(fields: Seq<FieldValue>, k: int)
    requires
        0 <= k < fields.len(),
    ensures
        fields.contains(fields[k]),
{
}

/// For every DEV1G and DEV2G5, a complete SGMII bring-up sets these fields of the
/// device's own registers, and of the mode of its port, to these values, and sets none of
/// them to any other value, nor any other field of any register.
pub proof fn law_sgmii_settings(
    dev: DevGeneric,
    layout: RegisterLayout,
    register: Register,
    field: Field,
    value: u32,
)
    requires
        dev.port_index() <= u32::MAX,
    ensures
        plan_sets(sgmii_plan(dev, layout), register, field, value) <==> match field {
            Field::FdxEna | Field::GigaModeEna => value == 1 && register == Register::Dev1g(
                dev.block(layout),
                Dev1gRegister::MacModeCfg,
            ),
            Field::TxIfg => value == 4 && register == Register::Dev1g(
                dev.block(layout),
                Dev1gRegister::MacIfgCfg,
            ),
            Field::RxIfg1 | Field::RxIfg2 => value == 0 && register == Register::Dev1g(
                dev.block(layout),
                Dev1gRegister::MacIfgCfg,
            ),
            Field::SwResolveEna => value == 1 && register == Register::Dev1g(
                dev.block(layout),
                Dev1gRegister::Pcs1gAnegCfg,
            ),
            Field::SdEna => value == 0 && register == Register::Dev1g(
                dev.block(layout),
                Dev1gRegister::Pcs1gSdCfg,
            ),
            Field::PcsEna => value == 1 && register == Register::Dev1g(
                dev.block(layout),
                Dev1gRegister::Pcs1gCfg,
            ),
            Field::TxEna | Field::RxEna => value == 1 && register == Register::Dev1g(
                dev.block(layout),
                Dev1gRegister::MacEnaCfg,
            ),
            Field::SpeedSel => value == 2 && register == Register::Dev1g(
                dev.block(layout),
                Dev1gRegister::DevRstCtrl,
            ),
            Field::PortEna => value == 1 && (register matches Register::SwitchPortMode(port) && port
                == dev.port_index()),
            Field::FwdUrgency => value == 104 && (register matches Register::SwitchPortMode(port)
                && port == dev.port_index()),
            _ => false,
        },
{
    let plan = sgmii_plan(dev, layout);
    let i = sgmii_step(field);
    let fields = match plan[i] {
        ActionView::Modify(_, fields) => fields,
        ActionView::Write(_, fields) => fields,
        _ => Seq::empty(),
    };
    assert(fields.len() > 0);
    lemma_has(fields, 0);
    if fields.len() > 1 {
        lemma_has(fields, 1);
    }
    if fields.len() > 2 {
        lemma_has(fields, 2);
    }
    assert forall|k: int|
        0 <= k < plan.len() && #[trigger] sets(plan[k], register, field, value) implies k == i by {}
    assert(plan_sets(plan, register, field, value) <==> sets(plan[i], register, field, value));
}

/// An SGMII bring-up sets its fields in this order: the mode and the gaps of the MAC, what
/// the PCS needs and then the PCS itself, the MAC, the clocks, and at last the port. No
/// two actions set fields of one register.
pub proof fn law_sgmii_order(
    dev: DevGeneric,
    layout: RegisterLayout,
    i: int,
    j: int,
    r: Register,
    s: Register,
    f: Field,
    g: Field,
    v: u32,
    w: u32,
)
    requires
        0 <= i < sgmii_plan(dev, layout).len(),
        0 <= j < sgmii_plan(dev, layout).len(),
        sets(sgmii_plan(dev, layout)[i], r, f, v),
        sets(sgmii_plan(dev, layout)[j], s, g, w),
    ensures
        r == s <==> i == j,
        f is FdxEna && !(g is FdxEna || g is GigaModeEna) ==> i < j,
        f is TxIfg && g is SwResolveEna ==> i < j,
        f is SwResolveEna && g is SdEna ==> i < j,
        f is SdEna && g is PcsEna ==> i < j,
        f is PcsEna && g is TxEna ==> i < j,
        f is RxEna && g is SpeedSel ==> i < j,
        f is SpeedSel && g is PortEna ==> i < j,
{
    assert(i == sgmii_step(f));
    assert(j == sgmii_step(g));
}

/// Every action of an SGMII bring-up concerns the device that is brought up, or its port.
/// Besides the flush at its beginning it only accesses registers; those that turn on the
/// MAC and the clocks it writes outright, and of all others it keeps what it does not set.
pub proof fn law_sgmii_actions(dev: DevGeneric, layout: RegisterLayout, i: int)
    requires
        dev.port_index() <= u32::MAX,
        0 <= i < sgmii_plan(dev, layout).len(),
    ensures
        sgmii_plan(dev, layout).len() == 9,
        match sgmii_plan(dev, layout)[i] {
            ActionView::Flush1g(flushed) => flushed == dev && i == 0,
            ActionView::Write(Register::Dev1g(block, register), fields) => block == dev.block(
                layout,
            ) && (register is MacEnaCfg || register is DevRstCtrl) && fields.len() > 0,
            ActionView::Modify(Register::Dev1g(block, register), fields) => block == dev.block(
                layout,
            ) && !(register is MacEnaCfg || register is DevRstCtrl) && fields.len() > 0,
            ActionView::Modify(Register::SwitchPortMode(port), fields) => port == dev.port_index()
                && fields.len() > 0,
            _ => false,
        },
        sgmii_plan(dev, layout)[0] is Flush1g,
{
}

/// Which action of an SFI bring-up sets the field.
spec fn sfi_step(field: Field) -> int {
    match field {
        Field::SwRst | Field::Endian | Field::SwEna => 0,
        Field::SdEna => 3,
        Field::PcsEna => 4,
        Field::TxEna | Field::RxEna => 5,
        Field::PortEna | Field::FwdUrgency => 7,
        _ => 6,
    }
}

/// For every DEV10G, a complete SFI bring-up sets these fields of the device's own
/// registers, of the XGXFI with its index, and of the mode of its port, to these values,
/// and sets none of them to any other value, nor any other field of any register.
pub proof fn law_sfi_settings(dev: Dev10g, register: Register, field: Field, value: u32)
    requires
        dev.port_index() <= u32::MAX,
    ensures
        plan_sets(sfi_plan(dev), register, field, value) <==> match field {
            Field::SwRst => value == 0 && register == Register::XfiMode(dev@),
            Field::Endian | Field::SwEna => value == 1 && register == Register::XfiMode(dev@),
            Field::SdEna => value == 0 && register == Register::Dev10g(
                Dev10gBlock(dev@),
                Dev10gRegister::PcsXauiSdCfg,
            ),
            Field::PcsEna => value == 1 && register == Register::Dev10g(
                Dev10gBlock(dev@),
                Dev10gRegister::PcsXauiCfg,
            ),
            Field::RxEna | Field::TxEna => value == 1 && register == Register::Dev10g(
                Dev10gBlock(dev@),
                Dev10gRegister::MacEnaCfg,
            ),
            Field::PcsRxRst | Field::PcsTxRst | Field::MacRxRst | Field::MacTxRst => value == 0
                && register == Register::Dev10g(Dev10gBlock(dev@), Dev10gRegister::DevRstCtrl),
            Field::SpeedSel => value == 7 && register == Register::Dev10g(
                Dev10gBlock(dev@),
                Dev10gRegister::DevRstCtrl,
            ),
            Field::PortEna => value == 1 && (register matches Register::SwitchPortMode(port) && port
                == dev.port_index()),
            Field::FwdUrgency => value == 9 && (register matches Register::SwitchPortMode(port)
                && port == dev.port_index()),
            _ => false,
        },
{
    let plan = sfi_plan(dev);
    let i = sfi_step(field);
    let fields = plan[i]->Modify_1;
    assert(fields.len() > 0);
    lemma_has(fields, 0);
    if fields.len() > 1 {
        lemma_has(fields, 1);
    }
    if fields.len() > 2 {
        lemma_has(fields, 2);
    }
    if fields.len() > 3 {
        lemma_has(fields, 3);
        lemma_has(fields, 4);
    }
    assert forall|k: int|
        0 <= k < plan.len() && #[trigger] sets(plan[k], register, field, value) implies k == i by {}
    assert(plan_sets(plan, register, field, value) <==> sets(plan[i], register, field, value));
}

/// An SFI bring-up sets its fields in this order: the mode of the XGXFI, the signal
/// detect line, the PCS, the MAC, the resets and the speed, and at last the port. No two
/// actions set fields of one register.
pub proof fn law_sfi_order(
    dev: Dev10g,
    i: int,
    j: int,
    r: Register,
    s: Register,
    f: Field,
    g: Field,
    v: u32,
    w: u32,
)
    requires
        0 <= i < sfi_plan(dev).len(),
        0 <= j < sfi_plan(dev).len(),
        sets(sfi_plan(dev)[i], r, f, v),
        sets(sfi_plan(dev)[j], s, g, w),
    ensures
        r == s <==> i == j,
        f is SwRst && g is SdEna ==> i < j,
        f is SdEna && g is PcsEna ==> i < j,
        f is PcsEna && g is TxEna ==> i < j,
        f is RxEna && g is SpeedSel ==> i < j,
        f is SpeedSel && g is PortEna ==> i < j,
{
    assert(i == sfi_step(f));
    assert(j == sfi_step(g));
}

/// Every action of an SFI bring-up concerns the device that is brought up: its SERDES, its
/// port, the XGXFI with its index or its own registers. The SERDES is configured exactly
/// once, after the mode of the XGXFI has been set and before the port is flushed, and the
/// port is flushed exactly once, before any register of the device is accessed. Of all
/// registers it keeps what it does not set.
pub proof fn law_sfi_actions(dev: Dev10g, i: int, j: int, register: Dev10gRegister)
    requires
        dev.port_index() <= u32::MAX,
        0 <= i < sfi_plan(dev).len(),
        0 <= j < sfi_plan(dev).len(),
    ensures
        sfi_plan(dev).len() == 8,
        match sfi_plan(dev)[i] {
            ActionView::ApplySerdes10g(index) => index == dev@,
            ActionView::Flush10g(flushed) => flushed == dev,
            ActionView::Modify(Register::XfiMode(index), fields) => index == dev@ && fields.len()
                > 0,
            ActionView::Modify(Register::Dev10g(block, _), fields) => block == Dev10gBlock(dev@)
                && fields.len() > 0,
            ActionView::Modify(Register::SwitchPortMode(port), fields) => port == dev.port_index()
                && fields.len() > 0,
            _ => false,
        },
        exists|k: int|
            0 <= k < sfi_plan(dev).len() && #[trigger] sfi_plan(dev)[k] is ApplySerdes10g,
        exists|k: int| 0 <= k < sfi_plan(dev).len() && #[trigger] sfi_plan(dev)[k] is Flush10g,
        sfi_plan(dev)[i] is ApplySerdes10g && sfi_plan(dev)[j] is ApplySerdes10g ==> i == j,
        sfi_plan(dev)[i] is Flush10g && sfi_plan(dev)[j] is Flush10g ==> i == j,
        sfi_plan(dev)[i] is ApplySerdes10g && sfi_plan(dev)[j] is Flush10g ==> i < j,
        accesses(sfi_plan(dev)[i], Register::XfiMode(dev@)) && sfi_plan(dev)[j] is ApplySerdes10g
            ==> i < j,
        sfi_plan(dev)[i] is Flush10g && accesses(
            sfi_plan(dev)[j],
            Register::Dev10g(Dev10gBlock(dev@), register),
        ) ==> i < j,
{
    let plan = sfi_plan(dev);
    assert(plan[1] is ApplySerdes10g);
    assert(plan[2] is Flush10g);
}

} // verus!
