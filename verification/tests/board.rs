use sp_firmware::lpc55_update::BLOCK_SIZE_BYTES;
use sp_firmware::sidecar::{
    configure_ethernet_pins, preinit, Alternate, Bsp, Config, Ksz8463, Ksz8463ResetSpeed,
    MdioPins, Port, Preinit, RmiiPins, VLanMode, Vsc85x2, WAKE_INTERVAL,
};

#[test]
fn ethernet_pins() {
    assert_eq!(
        configure_ethernet_pins(),
        (
            RmiiPins {
                refclk: Port::A.pin(1),
                crs_dv: Port::A.pin(7),
                tx_en: Port::G.pin(11),
                txd0: Port::G.pin(13),
                txd1: Port::G.pin(12),
                rxd0: Port::C.pin(4),
                rxd1: Port::C.pin(5),
                af: Alternate::AF11,
            },
            MdioPins {
                mdio: Port::A.pin(2),
                mdc: Port::C.pin(1),
                af: Alternate::AF11,
            }
        )
    );
}

#[test]
fn preparations_wait_for_the_clock() {
    let answers = [Err("busy"), Ok(false), Ok(true)];
    let mut slept = 0;
    for answer in answers {
        match preinit(answer) {
            Preinit::Ready => break,
            Preinit::SleepFor(ticks) => slept += ticks,
        }
    }
    assert_eq!(slept, 20);
    assert_eq!(preinit(Ok::<_, ()>(true)), Preinit::Ready);
    assert_eq!(preinit(Ok::<_, ()>(false)), Preinit::SleepFor(10));
    assert_eq!(preinit(Err(())), Preinit::SleepFor(10));
}

#[test]
fn management_network() {
    let bsp = Bsp::new();
    let ksz8463 = Ksz8463 {
        spi: 0,
        nrst: Port::A.pin(0),
        rst_type: Ksz8463ResetSpeed::Normal,
        vlan_mode: VLanMode::Mandatory,
    };
    assert_eq!(*bsp.ksz8463(), ksz8463);
    assert_eq!(
        *bsp.config(),
        Config {
            power_en: Some(Port::I.pin(11)),
            slow_power_en: false,
            power_good: None,
            pll_lock: None,
            ksz8463,
            vsc85x2: Vsc85x2 {
                coma_mode: Some(Port::I.pin(15)),
                nrst: Port::I.pin(14),
                base_port: 0,
                sigdet_polarity: true,
            },
        }
    );
}

#[test]
fn no_pin_is_used_twice() {
    let (rmii, mdio) = configure_ethernet_pins();
    let config = *Bsp::new().config();
    let pins = [
        rmii.refclk,
        rmii.crs_dv,
        rmii.tx_en,
        rmii.txd0,
        rmii.txd1,
        rmii.rxd0,
        rmii.rxd1,
        mdio.mdio,
        mdio.mdc,
        config.ksz8463.nrst,
        config.vsc85x2.nrst,
        config.power_en.unwrap(),
        config.vsc85x2.coma_mode.unwrap(),
    ];
    for i in 0..pins.len() {
        for j in 0..i {
            assert_ne!(pins[i], pins[j]);
        }
    }
}

#[test]
fn constants() {
    assert_eq!(BLOCK_SIZE_BYTES, 512);
    assert_eq!(WAKE_INTERVAL, None);
}
