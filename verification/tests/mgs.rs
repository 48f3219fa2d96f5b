use sp_firmware::messages;
use sp_firmware::messages::{
    DiscoverResponse, PowerState, ResetIntent, RotError, RotState, RotUpdateDetails, SpComponent,
    SpError, SpPort,
};
use sp_firmware::mgs_common::{
    CabooseError, ComponentReset, MacAddress, MgsCommon, SystemReset, VpdIdentity,
    WellKnownComponents,
};
use sp_firmware::sprot;
use sp_firmware::sprot::{SprotError, UpdateTarget};

fn component(name: &[u8]) -> SpComponent {
    let mut id = [0; 16];
    id[..name.len()].copy_from_slice(name);
    SpComponent { id }
}

const MAC: MacAddress = MacAddress([1, 2, 3, 4, 5, 6]);

fn mgs() -> MgsCommon {
    MgsCommon::claim_static_resources(
        MAC,
        WellKnownComponents {
            sp_itself: component(b"itself"),
            rot: component(b"trust"),
        },
    )
}

#[test]
fn discovery_names_the_port() {
    assert_eq!(
        mgs().discover(SpPort::Two),
        Ok(DiscoverResponse {
            sp_port: SpPort::Two
        })
    );
}

#[test]
fn components_are_compared_by_all_of_their_identifiers() {
    let mut other = component(b"trust");
    assert!(other.same_as(&component(b"trust")));
    other.id[15] = 1;
    assert!(!other.same_as(&component(b"trust")));
}

#[test]
fn a_reset_has_to_be_prepared() {
    let mut m = mgs();
    assert_eq!(
        m.reset_trigger(),
        Err(SpError::ResetTriggerWithoutPrepare)
    );
    assert_eq!(m.reset_prepare(), Ok(()));
    m.reset_component_prepare(component(b"trust")).unwrap();
    assert_eq!(m.reset_trigger(), Ok(SystemReset));
}

#[test]
fn a_component_reset_has_to_be_prepared() {
    let mut m = mgs();
    let refused = Err(SpError::ResetComponentTriggerWithoutPrepare);
    let trigger = |m: &mut MgsCommon, name: &[u8]| {
        m.reset_component_trigger(component(name), None, ResetIntent::<u8>::Normal, &[])
    };

    assert_eq!(trigger(&mut m, b"trust"), refused);
    assert_eq!(m.reset_component_prepare(component(b"trust")), Ok(()));
    // Refusing another component keeps this one prepared.
    assert_eq!(trigger(&mut m, b"itself"), refused);
    assert!(trigger(&mut m, b"trust").is_ok());
    // Once it has been triggered, it is no longer prepared.
    assert_eq!(trigger(&mut m, b"trust"), refused);

    // Preparing another component replaces the one before.
    m.reset_component_prepare(component(b"trust")).unwrap();
    m.reset_component_prepare(component(b"itself")).unwrap();
    assert_eq!(trigger(&mut m, b"trust"), refused);
    assert_eq!(trigger(&mut m, b"itself"), Ok(ComponentReset::System));

    // A component without a name is not told from none.
    assert!(trigger(&mut m, b"").is_ok());
}

fn trigger_prepared(
    name: &[u8],
    slot: Option<u16>,
    intent: ResetIntent<u8>,
) -> Result<ComponentReset<'static, u8>, SpError> {
    let mut m = mgs();
    m.reset_component_prepare(component(name)).unwrap();
    m.reset_component_trigger(component(name), slot, intent, &[9, 8, 7])
}

fn rot_reset(
    intent: ResetIntent<u8>,
    target: UpdateTarget,
) -> Result<ComponentReset<'static, u8>, SpError> {
    Ok(ComponentReset::Rot {
        intent,
        target,
        auth_data_len: 3,
        auth_data: &[9, 8, 7],
    })
}

#[test]
fn component_reset_targets() {
    let unsupported = Err(SpError::RequestUnsupportedForComponent);
    for intent in [ResetIntent::Persistent, ResetIntent::Transient] {
        assert_eq!(
            trigger_prepared(b"trust", Some(0), intent),
            rot_reset(intent, UpdateTarget::ImageA)
        );
        assert_eq!(
            trigger_prepared(b"trust", Some(1), intent),
            rot_reset(intent, UpdateTarget::ImageB)
        );
        assert_eq!(trigger_prepared(b"trust", Some(2), intent), unsupported);
        assert_eq!(trigger_prepared(b"trust", None, intent), unsupported);
        assert_eq!(trigger_prepared(b"fan", Some(0), intent), unsupported);
        assert_eq!(
            trigger_prepared(b"itself", Some(5), intent),
            Ok(ComponentReset::System)
        );
    }
    for intent in [ResetIntent::Normal, ResetIntent::Other(7), ResetIntent::Other(8)] {
        assert_eq!(
            trigger_prepared(b"trust", Some(1), intent),
            rot_reset(intent, UpdateTarget::ImageA)
        );
        assert_eq!(
            trigger_prepared(b"fan", None, intent),
            rot_reset(intent, UpdateTarget::ImageA)
        );
    }
}

#[test]
fn the_length_of_auth_data_is_cut_to_16_bits() {
    let auth_data = vec![0; 0x1_0002];
    let mut m = mgs();
    m.reset_component_prepare(component(b"trust")).unwrap();
    match m.reset_component_trigger(
        component(b"trust"),
        None,
        ResetIntent::<u8>::Normal,
        &auth_data,
    ) {
        Ok(ComponentReset::Rot {
            auth_data_len,
            auth_data: passed_on,
            ..
        }) => {
            assert_eq!(auth_data_len, 2);
            assert_eq!(passed_on.len(), 0x1_0002);
        }
        other => panic!("unexpected {other:?}"),
    }
}

#[test]
fn the_error_of_a_component_reset_is_not_passed_on() {
    assert_eq!(
        mgs().reset_component_outcome(Err(SprotError { code: 4 })),
        Ok(())
    );
}

#[test]
fn caboose_values() {
    let m = mgs();
    let key = *b"GITC";
    assert_eq!(m.get_caboose_value(key, Some(Ok(b"abc"))), Ok(&b"abc"[..]));
    assert_eq!(m.get_caboose_value(key, None), Err(SpError::NoCaboose));
    for (error, answer) in [
        (CabooseError::NoSuchTag, SpError::NoSuchCabooseKey(key)),
        (CabooseError::MissingCaboose, SpError::NoCaboose),
        (
            CabooseError::TlvcReaderBeginFailed,
            SpError::CabooseReadError,
        ),
        (CabooseError::TlvcReadExactFailed, SpError::CabooseReadError),
        (CabooseError::BadChecksum, SpError::BadCabooseChecksum),
    ] {
        assert_eq!(m.get_caboose_value(key, Some(Err(error))), Err(answer));
    }
}

const VERSION: messages::ImageVersion = messages::ImageVersion {
    epoch: 3,
    version: 4,
};

fn image(n: u8) -> sprot::RotImageDetails {
    sprot::RotImageDetails {
        digest: [n; 32],
        version: sprot::ImageVersion {
            epoch: n as u32,
            version: 100,
        },
    }
}

#[test]
fn sp_state_of_a_known_board() {
    let id = VpdIdentity {
        part_number: *b"913-0000019",
        revision: 6,
        serial: *b"BRM42220031",
    };
    let status = sprot::RotBootState {
        active: sprot::RotSlot::B,
        a: Some(image(1)),
        b: None,
    };
    let state = mgs()
        .sp_state(
            Ok::<_, ()>(id),
            VpdIdentity {
                part_number: [0; 11],
                revision: 0,
                serial: [0; 11],
            },
            0x0807_0605_0403_0201,
            VERSION,
            PowerState::A2,
            Ok(status),
        )
        .unwrap();

    assert_eq!(&state.serial_number[..11], b"BRM42220031");
    assert_eq!(state.serial_number[11..], [0; 21]);
    assert_eq!(&state.model[..11], b"913-0000019");
    assert_eq!(state.model[11..], [0; 21]);
    assert_eq!(state.revision, 6);
    assert_eq!(state.hubris_archive_id, [1, 2, 3, 4, 5, 6, 7, 8]);
    assert_eq!(state.base_mac_address, MAC.0);
    assert_eq!(state.version, VERSION);
    assert_eq!(state.power_state, PowerState::A2);
    assert_eq!(state.rot, sprot::rot_state(Ok(status)));
}

#[test]
fn sp_state_of_an_unknown_board() {
    let read: Result<VpdIdentity<11, 11>, &str> = Err("not loaded");
    let default = VpdIdentity {
        part_number: [b'P'; 11],
        revision: 77,
        serial: [b'S'; 11],
    };
    assert_eq!(mgs().identity(read, default), default);

    let state = mgs()
        .sp_state(
            read,
            default,
            u64::MAX,
            VERSION,
            PowerState::A0,
            Err(SprotError { code: 17 }),
        )
        .unwrap();
    assert_eq!(state.serial_number[..11], [b'S'; 11]);
    assert_eq!(state.serial_number[11..], [0; 21]);
    assert_eq!(state.model[..11], [b'P'; 11]);
    assert_eq!(state.model[11..], [0; 21]);
    assert_eq!(state.revision, 77);
    assert_eq!(state.hubris_archive_id, [0xff; 8]);
    assert_eq!(state.rot, Err(RotError::MessageError { code: 17 }));
}

#[test]
fn rot_states() {
    let details = |n: u8| messages::RotImageDetails {
        digest: [n; 32],
        version: messages::ImageVersion {
            epoch: n as u32,
            version: 100,
        },
    };
    assert_eq!(
        sprot::rot_state(Ok(sprot::RotBootState {
            active: sprot::RotSlot::A,
            a: Some(image(1)),
            b: Some(image(2)),
        })),
        Ok(RotState {
            rot_updates: RotUpdateDetails {
                boot_state: messages::RotBootState {
                    active: messages::RotSlot::A,
                    slot_a: Some(details(1)),
                    slot_b: Some(details(2)),
                },
            },
        })
    );
    assert_eq!(
        sprot::rot_state(Err(SprotError { code: 5 })),
        Err(RotError::MessageError { code: 5 })
    );
}
