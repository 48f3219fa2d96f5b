//! What the root of trust (RoT) tells the service processor, and how that is passed
//! on to the management gateway.

use crate::messages;
use crate::messages::{RotError, RotState, RotUpdateDetails, DIGEST_LEN};
use vstd::prelude::*;
use vstd::std_specs::convert::{FromSpec, FromSpecImpl};

verus! {

#[derive(Copy, Clone, Debug, PartialEq, Eq, Structural)]
pub enum RotSlot {
    A,
    B,
}

#[derive(Copy, Clone, Debug, PartialEq, Eq, Structural)]
pub struct ImageVersion {
    pub epoch: u32,
    pub version: u32,
}

/// An image in a slot of the RoT.
#[derive(Copy, Clone, Debug, PartialEq, Eq)]
pub struct RotImageDetails {
    pub digest: [u8; DIGEST_LEN],
    pub version: ImageVersion,
}

/// The slot that the RoT has booted from, and the images in both of its slots.
#[derive(Copy, Clone, Debug, PartialEq, Eq)]
pub struct RotBootState {
    pub active: RotSlot,
    pub a: Option<RotImageDetails>,
    pub b: Option<RotImageDetails>,
}

/// The error of an exchange with the RoT.
#[derive(Copy, Clone, Debug, PartialEq, Eq, Structural)]
pub struct SprotError {
    pub code: u32,
}

/// An image of the RoT that can be selected for its next boot.
#[derive(Copy, Clone, Debug, PartialEq, Eq, Structural)]
pub enum UpdateTarget {
    ImageA,
    ImageB,
}

/// A `SprotError` that is to be passed on.
#[derive(Copy, Clone, Debug)]
pub struct SprotErrorConvert(pub SprotError);

impl From<SprotErrorConvert> for RotError {
    fn from(err: SprotErrorConvert) -> (r: Self) {
        RotError::MessageError { code: err.0.code }
    }
}

impl FromSpecImpl<SprotErrorConvert> for RotError {
    open spec fn obeys_from_spec() -> bool {
        true
    }

    open spec fn from_spec(err: SprotErrorConvert) -> RotError {
        RotError::MessageError { code: err.0.code }
    }
}

/// A `RotImageDetails` that is to be passed on.
#[derive(Copy, Clone, Debug)]
pub struct RotImageDetailsConvert(pub RotImageDetails);

impl From<RotImageDetailsConvert> for messages::RotImageDetails {
    fn from(value: RotImageDetailsConvert) -> (r: Self) {
        messages::RotImageDetails {
            digest: value.0.digest,
            version: messages::ImageVersion {
                epoch: value.0.version.epoch,
                version: value.0.version.version,
            },
        }
    }
}

impl FromSpecImpl<RotImageDetailsConvert> for messages::RotImageDetails {
    open spec fn obeys_from_spec() -> bool {
        true
    }

    open spec fn from_spec(value: RotImageDetailsConvert) -> messages::RotImageDetails {
        image_details(value.0)
    }
}

/// An image of the RoT, as the gateway is told of it.
pub open spec fn image_details(image: RotImageDetails) -> messages::RotImageDetails {
    messages::RotImageDetails {
        digest: image.digest,
        version: messages::ImageVersion {
            epoch: image.version.epoch,
            version: image.version.version,
        },
    }
}

/// What a slot of the RoT holds, as the gateway is told of it.
pub open spec fn slot_details(slot: Option<RotImageDetails>) -> Option<messages::RotImageDetails> {
    match slot {
        Some(image) => Some(image_details(image)),
        None => None,
    }
}

/// The state of the RoT, as the gateway is told of it.
pub open spec fn gateway_rot_state(status: Result<RotBootState, SprotError>) -> Result<
    RotState,
    RotError,
> {
    match status {
        Ok(boot_state) => Ok(
            RotState {
                rot_updates: RotUpdateDetails {
                    boot_state: messages::RotBootState {
                        active: match boot_state.active {
                            RotSlot::A => messages::RotSlot::A,
                            RotSlot::B => messages::RotSlot::B,
                        },
                        slot_a: slot_details(boot_state.a),
                        slot_b: slot_details(boot_state.b),
                    },
                },
            },
        ),
        Err(err) => Err(RotError::MessageError { code: err.code }),
    }
}

fn convert_slot(slot: Option<RotImageDetails>) -> (r: Option<messages::RotImageDetails>)
    ensures
        r == slot_details(slot),
{
    match slot {
        Some(image) => Some(messages::RotImageDetails::from(RotImageDetailsConvert(image))),
        None => None,
    }
}

/// The state of the RoT, from its answer to a status request.
pub fn rot_state(status: Result<RotBootState, SprotError>) -> (r: Result<RotState, RotError>)
    ensures
        r == gateway_rot_state(status),
{
    let boot_state = match status {
        Ok(boot_state) => boot_state,
        Err(err) => return Err(RotError::from(SprotErrorConvert(err))),
    };
    let active = match boot_state.active {
        RotSlot::A => messages::RotSlot::A,
        RotSlot::B => messages::RotSlot::B,
    };
    let slot_a = convert_slot(boot_state.a);
    let slot_b = convert_slot(boot_state.b);
    Ok(
        RotState {
            rot_updates: RotUpdateDetails {
                boot_state: messages::RotBootState { active, slot_a, slot_b },
            },
        },
    )
}

/// Nothing is lost on the way to the gateway: different answers of the RoT make for
/// different states.
pub proof fn law_rot_state_lossless(
    a: Result<RotBootState, SprotError>,
    b: Result<RotBootState, SprotError>,
)
    requires
        gateway_rot_state(a) == gateway_rot_state(b),
    ensures
        a == b,
{
    if let (Ok(x), Ok(y)) = (a, b) {
        lemma_slot_lossless(x.a, y.a);
        lemma_slot_lossless(x.b, y.b);
    }
}

proof fn lemma_slot_lossless(x: Option<RotImageDetails>, y: Option<RotImageDetails>)
    requires
        slot_details(x) == slot_details(y),
    ensures
        x == y,
{
    if let (Some(i), Some(j)) = (x, y) {
        assert(image_details(i) == image_details(j));
        assert(i.version == j.version);
    }
}

/// Whether the gateway is told of this image as it is.
pub open spec fn same_image(told: messages::RotImageDetails, image: RotImageDetails) -> bool {
    &&& told.digest == image.digest
    &&& told.version.epoch == image.version.epoch
    &&& told.version.version == image.version.version
}

/// Whichever slot is active, the gateway is told which one it is, and of each slot just
/// what that slot holds.
pub proof fn law_slots_told_as_they_are(boot_state: RotBootState)
    ensures
        gateway_rot_state(Ok(boot_state)) matches Ok(state) && {
            let told = state.rot_updates.boot_state;
            &&& told.active is A <==> boot_state.active is A
            &&& told.active is B <==> boot_state.active is B
            &&& told.slot_a is Some <==> boot_state.a is Some
            &&& told.slot_b is Some <==> boot_state.b is Some
            &&& boot_state.a is Some ==> {
                &&& told.slot_a->0.digest == boot_state.a->0.digest
                &&& told.slot_a->0.version.epoch == boot_state.a->0.version.epoch
                &&& told.slot_a->0.version.version == boot_state.a->0.version.version
            }
            &&& boot_state.b is Some ==> {
                &&& told.slot_b->0.digest == boot_state.b->0.digest
                &&& told.slot_b->0.version.epoch == boot_state.b->0.version.epoch
                &&& told.slot_b->0.version.version == boot_state.b->0.version.version
            }
        },
{
}

/// What the gateway is told of one slot does not depend on the other one, nor on which
/// one is active.
pub proof fn law_slots_independent(x: RotBootState, y: RotBootState)
    ensures
        gateway_rot_state(Ok(x)) matches Ok(s) && gateway_rot_state(Ok(y)) matches Ok(t) && {
            let told_x = s.rot_updates.boot_state;
            let told_y = t.rot_updates.boot_state;
            &&& x.a == y.a ==> told_x.slot_a == told_y.slot_a
            &&& x.b == y.b ==> told_x.slot_b == told_y.slot_b
            &&& x.active == y.active ==> told_x.active == told_y.active
            &&& x.a == y.b ==> told_x.slot_a == told_y.slot_b
        },
{
}

/// The gateway is told of a failed exchange by the code of that failure, and of no
/// failure where there was none.
pub proof fn law_failure_told_by_code(status: Result<RotBootState, SprotError>)
    ensures
        gateway_rot_state(status) is Err <==> status is Err,
        status matches Err(failure) ==> gateway_rot_state(status) matches Err(
            RotError::MessageError { code },
        ) && code == failure.code,
{
}

/// An image and an error that are passed on keep all that they hold.
pub proof fn law_conversions_keep(image: RotImageDetails, failure: SprotError)
    ensures
        same_image(
            <messages::RotImageDetails as FromSpec<RotImageDetailsConvert>>::from_spec(
                RotImageDetailsConvert(image),
            ),
            image,
        ),
        <RotError as FromSpec<SprotErrorConvert>>::from_spec(
            SprotErrorConvert(failure),
        ) matches RotError::MessageError { code } && code == failure.code,
{
}

} // verus!
