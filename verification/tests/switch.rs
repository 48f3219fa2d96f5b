use sp_firmware::bringup::{
    dev10g_init_sfi, dev1g_init_sgmii, Action, Bringup, Dev10gRegister, Dev1gRegister, Field,
    FieldValue, Register,
};
use sp_firmware::dev::{Dev10g, Dev10gBlock, Dev1gBlock, DevGeneric, RegisterLayout};

fn layout() -> RegisterLayout {
    RegisterLayout {
        dev2g5_base: 0x1000,
        dev1g_size: 0x40,
    }
}

fn fields(values: &[(Field, u32)]) -> Vec<FieldValue> {
    values
        .iter()
        .map(|&(field, value)| FieldValue { field, value })
        .collect()
}

/// Performs a bring-up in which the action number `fails` fails, if there is one.
fn run(mut bringup: Bringup, fails: Option<usize>) -> (usize, Result<(), &'static str>) {
    let mut performed = 0;
    while bringup.next_action().is_some() {
        let outcome = if Some(performed) == fails {
            Err("broken")
        } else {
            Ok(())
        };
        performed += 1;
        if let Err(e) = bringup.record(outcome) {
            assert!(bringup.next_action().is_none());
            return (performed, Err(e));
        }
    }
    (performed, Ok(()))
}

/// Checks that a bring-up consists of these actions.
fn check_plan(mut bringup: Bringup, plan: &[Action]) {
    for action in plan {
        assert_eq!(bringup.next_action(), Some(action));
        bringup.record::<()>(Ok(())).unwrap();
    }
    assert_eq!(bringup.next_action(), None);
}

#[test]
fn dev1g_ports() {
    assert_eq!(DevGeneric::new_1g(0).port(), 0);
    assert_eq!(DevGeneric::new_1g(7).port(), 7);
    assert_eq!(DevGeneric::new_1g(8).port(), 32);
    assert_eq!(DevGeneric::new_1g(23).port(), 47);
    assert_eq!(DevGeneric::new_1g(23).index(), 23);
}

#[test]
fn dev2g5_ports() {
    assert_eq!(DevGeneric::new_2g5(0).port(), 8);
    assert_eq!(DevGeneric::new_2g5(23).port(), 31);
    assert_eq!(DevGeneric::new_2g5(24).port(), 32);
    assert_eq!(DevGeneric::new_2g5(25).port(), 49);
    assert_eq!(DevGeneric::new_2g5(28).port(), 52);
    assert_eq!(DevGeneric::new_2g5(28).index(), 28);
}

#[test]
fn dev10g_ports() {
    for d in 0..4 {
        let dev = Dev10g::new(d);
        assert_eq!(dev.index(), d);
        assert_eq!(dev.port(), 49 + d);
        assert_eq!(dev.port(), DevGeneric::new_2g5(25 + d).port());
        assert_eq!(dev.regs(), Dev10gBlock(d));
    }
}

#[test]
fn all_but_two_ports_differ() {
    let mut devs = Vec::new();
    for d in 0..24 {
        devs.push(DevGeneric::new_1g(d));
    }
    for d in 0..29 {
        devs.push(DevGeneric::new_2g5(d));
    }
    let mut same = Vec::new();
    for i in 0..devs.len() {
        assert!(devs[i].port() <= 52);
        for j in 0..i {
            if devs[i].port() == devs[j].port() {
                same.push((devs[j], devs[i]));
            }
        }
    }
    assert_eq!(same, vec![(DevGeneric::Dev1g(8), DevGeneric::Dev2g5(24))]);
}

#[test]
fn register_blocks() {
    assert_eq!(DevGeneric::new_1g(5).regs(layout()), Dev1gBlock::Dev1g(5));
    assert_eq!(
        DevGeneric::new_2g5(0).regs(layout()),
        Dev1gBlock::At(0x1000)
    );
    assert_eq!(
        DevGeneric::new_2g5(3).regs(layout()),
        Dev1gBlock::At(0x10c0)
    );
}

#[test]
fn sgmii_bringup() {
    let dev = DevGeneric::new_2g5(2);
    let reg = |r| Register::Dev1g(Dev1gBlock::At(0x1080), r);
    check_plan(
        dev1g_init_sgmii(dev, layout()),
        &[
            Action::Flush1g(dev),
            Action::Modify(
                reg(Dev1gRegister::MacModeCfg),
                fields(&[(Field::FdxEna, 1), (Field::GigaModeEna, 1)]),
            ),
            Action::Modify(
                reg(Dev1gRegister::MacIfgCfg),
                fields(&[(Field::TxIfg, 4), (Field::RxIfg1, 0), (Field::RxIfg2, 0)]),
            ),
            Action::Modify(
                reg(Dev1gRegister::Pcs1gAnegCfg),
                fields(&[(Field::SwResolveEna, 1)]),
            ),
            Action::Modify(
                reg(Dev1gRegister::Pcs1gSdCfg),
                fields(&[(Field::SdEna, 0)]),
            ),
            Action::Modify(reg(Dev1gRegister::Pcs1gCfg), fields(&[(Field::PcsEna, 1)])),
            Action::Write(
                reg(Dev1gRegister::MacEnaCfg),
                fields(&[(Field::TxEna, 1), (Field::RxEna, 1)]),
            ),
            Action::Write(
                reg(Dev1gRegister::DevRstCtrl),
                fields(&[(Field::SpeedSel, 2)]),
            ),
            Action::Modify(
                Register::SwitchPortMode(10),
                fields(&[(Field::PortEna, 1), (Field::FwdUrgency, 104)]),
            ),
        ],
    );
}

#[test]
fn sfi_bringup() {
    let dev = Dev10g::new(1);
    let reg = |r| Register::Dev10g(Dev10gBlock(1), r);
    check_plan(
        dev10g_init_sfi(dev),
        &[
            Action::Modify(
                Register::XfiMode(1),
                fields(&[(Field::SwRst, 0), (Field::Endian, 1), (Field::SwEna, 1)]),
            ),
            Action::ApplySerdes10g(1),
            Action::Flush10g(dev),
            Action::Modify(
                reg(Dev10gRegister::PcsXauiSdCfg),
                fields(&[(Field::SdEna, 0)]),
            ),
            Action::Modify(
                reg(Dev10gRegister::PcsXauiCfg),
                fields(&[(Field::PcsEna, 1)]),
            ),
            Action::Modify(
                reg(Dev10gRegister::MacEnaCfg),
                fields(&[(Field::RxEna, 1), (Field::TxEna, 1)]),
            ),
            Action::Modify(
                reg(Dev10gRegister::DevRstCtrl),
                fields(&[
                    (Field::PcsRxRst, 0),
                    (Field::PcsTxRst, 0),
                    (Field::MacRxRst, 0),
                    (Field::MacTxRst, 0),
                    (Field::SpeedSel, 7),
                ]),
            ),
            Action::Modify(
                Register::SwitchPortMode(50),
                fields(&[(Field::PortEna, 1), (Field::FwdUrgency, 9)]),
            ),
        ],
    );
}

#[test]
fn a_bringup_without_failures_performs_everything() {
    let dev = DevGeneric::new_1g(0);
    assert_eq!(run(dev1g_init_sgmii(dev, layout()), None), (9, Ok(())));
    assert_eq!(run(dev10g_init_sfi(Dev10g::new(0)), None), (8, Ok(())));
}

#[test]
fn a_bringup_stops_at_the_first_failure() {
    for k in 0..8 {
        assert_eq!(
            run(dev10g_init_sfi(Dev10g::new(0)), Some(k)),
            (k + 1, Err("broken"))
        );
    }
}
