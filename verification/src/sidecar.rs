//! The management network of the Sidecar board.

use vstd::prelude::*;

verus! {

/// How often the board has to be woken up: never.
pub const WAKE_INTERVAL: Option<u64> = None;

/// A GPIO port of the service processor.
#[derive(Copy, Clone, Debug, PartialEq, Eq, Structural)]
pub enum Port {
    A,
    C,
    G,
    I,
}

/// A pin of a GPIO port.
#[derive(Copy, Clone, Debug, PartialEq, Eq, Structural)]
pub struct Pin {
    pub port: Port,
    pub pin: usize,
}

/// An alternate function of a pin.
#[derive(Copy, Clone, Debug, PartialEq, Eq, Structural)]
pub enum Alternate {
    AF11,
}

/// The pins of the RMII interface.
#[derive(Copy, Clone, Debug, PartialEq, Eq, Structural)]
pub struct RmiiPins {
    pub refclk: Pin,
    pub crs_dv: Pin,
    pub tx_en: Pin,
    pub txd0: Pin,
    pub txd1: Pin,
    pub rxd0: Pin,
    pub rxd1: Pin,
    pub af: Alternate,
}

/// The pins of the MDIO interface.
#[derive(Copy, Clone, Debug, PartialEq, Eq, Structural)]
pub struct MdioPins {
    pub mdio: Pin,
    pub mdc: Pin,
    pub af: Alternate,
}

/// How fast the KSZ8463 comes out of reset.
#[derive(Copy, Clone, Debug, PartialEq, Eq, Structural)]
pub enum Ksz8463ResetSpeed {
    Normal,
}

/// Whether the KSZ8463 wants packets to have VLAN tags.
#[derive(Copy, Clone, Debug, PartialEq, Eq, Structural)]
pub enum VLanMode {
    Mandatory,
}

/// The KSZ8463 switch of the management network.
#[derive(Copy, Clone, Debug, PartialEq, Eq, Structural)]
pub struct Ksz8463 {
    /// Its device on the SPI bus.
    pub spi: u8,
    /// Its reset line, active low.
    pub nrst: Pin,
    pub rst_type: Ksz8463ResetSpeed,
    pub vlan_mode: VLanMode,
}

/// The VSC85x2 PHY of the management network.
#[derive(Copy, Clone, Debug, PartialEq, Eq, Structural)]
pub struct Vsc85x2 {
    pub coma_mode: Option<Pin>,
    /// Its reset line, active low.
    pub nrst: Pin,
    pub base_port: u8,
    /// The polarity to set for its signal detect lines.
    pub sigdet_polarity: bool,
}

/// The devices of the management network, and how they are powered.
#[derive(Copy, Clone, Debug, PartialEq, Eq, Structural)]
pub struct Config {
    pub power_en: Option<Pin>,
    pub slow_power_en: bool,
    pub power_good: Option<Pin>,
    pub pll_lock: Option<Pin>,
    pub ksz8463: Ksz8463,
    pub vsc85x2: Vsc85x2,
}

/// The pin `pin` of the port `port`.
pub open spec fn pin(port: Port, pin: usize) -> Pin {
    Pin { port, pin }
}

/// The Sidecar's RMII pins.
pub open spec fn sidecar_rmii_pins() -> RmiiPins {
    RmiiPins {
        refclk: pin(Port::A, 1),
        crs_dv: pin(Port::A, 7),
        tx_en: pin(Port::G, 11),
        txd0: pin(Port::G, 13),
        txd1: pin(Port::G, 12),
        rxd0: pin(Port::C, 4),
        rxd1: pin(Port::C, 5),
        af: Alternate::AF11,
    }
}

/// The Sidecar's MDIO pins.
pub open spec fn sidecar_mdio_pins() -> MdioPins {
    MdioPins { mdio: pin(Port::A, 2), mdc: pin(Port::C, 1), af: Alternate::AF11 }
}

/// The Sidecar's management network.
pub open spec fn sidecar_config() -> Config {
    Config {
        // SP_TO_LDO_PHY2_EN (turns on both P2V5 and P1V0)
        power_en: Some(pin(Port::I, 11)),
        slow_power_en: false,
        power_good: None,
        pll_lock: None,
        ksz8463: Ksz8463 {
            spi: 0,
            // SP_TO_EPE_RESET_L
            nrst: pin(Port::A, 0),
            rst_type: Ksz8463ResetSpeed::Normal,
            vlan_mode: VLanMode::Mandatory,
        },
        vsc85x2: Vsc85x2 {
            // SP_TO_PHY2_COMA_MODE_3V3
            coma_mode: Some(pin(Port::I, 15)),
            // SP_TO_PHY2_RESET_3V3_L
            nrst: pin(Port::I, 14),
            base_port: 0,
            // The SIGDET GPIOs are pulled down.
            sigdet_polarity: true,
        },
    }
}

impl Port {
    /// The pin `pin` of this port.
    pub fn pin(self, pin: usize) -> (p: Pin)
        ensures
            p == self::pin(self, pin),
            p.port == self,
            p.pin == pin,
    {
        Pin { port: self, pin }
    }
}

/// The ethernet pins, in the order in which they are to be configured before the
/// `Bsp` is made.
pub fn configure_ethernet_pins() -> (pins: (RmiiPins, MdioPins))
    ensures
        pins == (sidecar_rmii_pins(), sidecar_mdio_pins()),
{
    let rmii = RmiiPins {
        refclk: Port::A.pin(1),
        crs_dv: Port::A.pin(7),
        tx_en: Port::G.pin(11),
        txd0: Port::G.pin(13),
        txd1: Port::G.pin(12),
        rxd0: Port::C.pin(4),
        rxd1: Port::C.pin(5),
        af: Alternate::AF11,
    };
    let mdio = MdioPins { mdio: Port::A.pin(2), mdc: Port::C.pin(1), af: Alternate::AF11 };
    (rmii, mdio)
}

/// What to do while waiting for the sequencer to turn on the clock.
#[derive(Copy, Clone, Debug, PartialEq, Eq, Structural)]
pub enum Preinit {
    /// The clock is on: go ahead.
    Ready,
    /// Ask the sequencer again after sleeping for this many ticks.
    SleepFor(u64),
}

/// What to do when the sequencer has given `answer` to whether the clock
/// configuration is loaded.
pub open spec fn preinit_step<E>(answer: Result<bool, E>) -> Preinit {
    if answer == Ok::<bool, E>(true) {
        Preinit::Ready
    } else {
        Preinit::SleepFor(10)
    }
}

/// Waits for the sequencer to turn on the clock: says what to do when it has given
/// `answer` to whether the clock configuration is loaded.
pub fn preinit<E>(answer: Result<bool, E>) -> (next: Preinit)
    ensures
        next == preinit_step(answer),
{
    match answer {
        Ok(true) => Preinit::Ready,
        _ => Preinit::SleepFor(10),
    }
}

/// The Sidecar's board support.
#[derive(Copy, Clone, Debug, PartialEq, Eq, Structural)]
pub struct Bsp(Config);

impl View for Bsp {
    type V = Config;

    closed spec fn view(&self) -> Config {
        self.0
    }
}

impl Bsp {
    /// The board support, with its management network as it is to be set up.
    pub fn new() -> (bsp: Self)
        ensures
            bsp@ == sidecar_config(),
    {
        Self(
            Config {
                power_en: Some(Port::I.pin(11)),
                slow_power_en: false,
                power_good: None,
                pll_lock: None,
                ksz8463: Ksz8463 {
                    spi: 0,
                    nrst: Port::A.pin(0),
                    rst_type: Ksz8463ResetSpeed::Normal,
                    vlan_mode: VLanMode::Mandatory,
                },
                vsc85x2: Vsc85x2 {
                    coma_mode: Some(Port::I.pin(15)),
                    nrst: Port::I.pin(14),
                    base_port: 0,
                    sigdet_polarity: true,
                },
            },
        )
    }

    /// The whole of the management network.
    pub fn config(&self) -> (config: &Config)
        ensures
            *config == self@,
    {
        &self.0
    }

    /// The switch of the management network.
    pub fn ksz8463(&self) -> (ksz8463: &Ksz8463)
        ensures
            *ksz8463 == self@.ksz8463,
    {
        &self.0.ksz8463
    }
}

/// How many ticks preparations sleep in all when the sequencer gives these answers
/// in turn; `None` where none of them lets preparations go ahead.
pub open spec fn total_sleep<E>(answers: Seq<Result<bool, E>>) -> Option<nat>
    decreases answers.len(),
{
    if answers.len() == 0 {
        None
    } else {
        match preinit_step(answers[0]) {
            Preinit::Ready => Some(0),
            Preinit::SleepFor(ticks) => match total_sleep(answers.drop_first()) {
                Some(rest) => Some(ticks as nat + rest),
                None => None,
            },
        }
    }
}

/// Preparations go ahead at the first answer that the clock configuration is loaded,
/// and sleep for 10 ticks after every other answer or failure before it.
pub proof fn law_preinit_waits_for_clock<E>(answers: Seq<Result<bool, E>>, k: int)
    requires
        0 <= k < answers.len(),
        answers[k] == Ok::<bool, E>(true),
        forall|i: int| 0 <= i < k ==> answers[i] != Ok::<bool, E>(true),
    ensures
        total_sleep(answers) == Some((10 * k) as nat),
    decreases k,
{
    if k > 0 {
        law_preinit_waits_for_clock(answers.drop_first(), k - 1);
    }
}

/// Preparations never go ahead while no answer says that the clock configuration is
/// loaded.
pub proof fn law_preinit_needs_clock<E>(answers: Seq<Result<bool, E>>)
    requires
        forall|i: int| 0 <= i < answers.len() ==> answers[i] != Ok::<bool, E>(true),
    ensures
        total_sleep(answers) is None,
    decreases answers.len(),
{
    if answers.len() > 0 {
        law_preinit_needs_clock(answers.drop_first());
    }
}

/// All the pins that the board support makes use of.
pub open spec fn pins_in_use(rmii: RmiiPins, mdio: MdioPins, config: Config) -> Seq<Pin> {
    seq![
        rmii.refclk,
        rmii.crs_dv,
        rmii.tx_en,
        rmii.txd0,
        rmii.txd1,
        rmii.rxd0,
        rmii.rxd1,
        mdio.mdio,
        mdio.mdc,
        config.ksz8463.nrst,
        config.vsc85x2.nrst,
        config.power_en.unwrap(),
        config.vsc85x2.coma_mode.unwrap(),
    ]
}

/// No pin is used for two things.
pub proof fn law_pins_differ(i: int, j: int)
    requires
        0 <= i < j < pins_in_use(
            sidecar_rmii_pins(),
            sidecar_mdio_pins(),
            sidecar_config(),
        ).len(),
    ensures
        ({
            let pins = pins_in_use(sidecar_rmii_pins(), sidecar_mdio_pins(), sidecar_config());
            pins[i] != pins[j]
        }),
{
}

/// A pin is on the port it was asked for of, under the number it was asked for by.
pub proof fn law_pin(port: Port, n: usize)
    ensures
        pin(port, n).port == port,
        pin(port, n).pin == n,
{
}

/// These pins of the ports A, C, G and I are in use, and no others.
pub proof fn law_which_pins(port: Port, n: usize)
    ensures
        pins_in_use(sidecar_rmii_pins(), sidecar_mdio_pins(), sidecar_config()).contains(
            Pin { port, pin: n },
        ) <==> match port {
            Port::A => n <= 2 || n == 7,
            Port::C => n == 1 || n == 4 || n == 5,
            Port::G => 11 <= n <= 13,
            Port::I => n == 11 || n == 14 || n == 15,
        },
{
    let pins = pins_in_use(sidecar_rmii_pins(), sidecar_mdio_pins(), sidecar_config());
    assert(pins[0] == Pin { port: Port::A, pin: 1 });
    assert(pins[1] == Pin { port: Port::A, pin: 7 });
    assert(pins[2] == Pin { port: Port::G, pin: 11 });
    assert(pins[3] == Pin { port: Port::G, pin: 13 });
    assert(pins[4] == Pin { port: Port::G, pin: 12 });
    assert(pins[5] == Pin { port: Port::C, pin: 4 });
    assert(pins[6] == Pin { port: Port::C, pin: 5 });
    assert(pins[7] == Pin { port: Port::A, pin: 2 });
    assert(pins[8] == Pin { port: Port::C, pin: 1 });
    assert(pins[9] == Pin { port: Port::A, pin: 0 });
    assert(pins[10] == Pin { port: Port::I, pin: 14 });
    assert(pins[11] == Pin { port: Port::I, pin: 11 });
    assert(pins[12] == Pin { port: Port::I, pin: 15 });
}

/// Preparations go ahead if and only if the answer is that the clock configuration is
/// loaded; a failure to answer counts as that it is not.
pub proof fn law_ready_iff_loaded<E>(answer: Result<bool, E>)
    ensures
        preinit_step(answer) is Ready <==> (answer matches Ok(loaded) && loaded),
{
}

} // verus!
