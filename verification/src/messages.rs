//! What the management gateway asks of a service processor (SP), and what it is
//! told.

use vstd::prelude::*;

verus! {

/// A network port of the SP.
#[derive(Copy, Clone, Debug, PartialEq, Eq, Structural)]
pub enum SpPort {
    One,
    Two,
}

/// The answer to a discovery request.
#[derive(Copy, Clone, Debug, PartialEq, Eq, Structural)]
pub struct DiscoverResponse {
    /// The port on which the request came in.
    pub sp_port: SpPort,
}

#[derive(Copy, Clone, Debug, PartialEq, Eq, Structural)]
pub enum PowerState {
    A0,
    A1,
    A2,
}

#[derive(Copy, Clone, Debug, PartialEq, Eq, Structural)]
pub struct ImageVersion {
    pub epoch: u32,
    pub version: u32,
}

/// An image slot of the root of trust (RoT).
#[derive(Copy, Clone, Debug, PartialEq, Eq, Structural)]
pub enum RotSlot {
    A,
    B,
}

/// The size of the digest of an RoT image.
pub const DIGEST_LEN: usize = 32;

/// An image in a slot of the RoT.
#[derive(Copy, Clone, Debug, PartialEq, Eq)]
pub struct RotImageDetails {
    pub digest: [u8; DIGEST_LEN],
    pub version: ImageVersion,
}

#[derive(Copy, Clone, Debug, PartialEq, Eq)]
pub struct RotBootState {
    pub active: RotSlot,
    pub slot_a: Option<RotImageDetails>,
    pub slot_b: Option<RotImageDetails>,
}

#[derive(Copy, Clone, Debug, PartialEq, Eq)]
pub struct RotUpdateDetails {
    pub boot_state: RotBootState,
}

#[derive(Copy, Clone, Debug, PartialEq, Eq)]
pub struct RotState {
    pub rot_updates: RotUpdateDetails,
}

/// Why the state of the RoT is not known.
#[derive(Copy, Clone, Debug, PartialEq, Eq, Structural)]
pub enum RotError {
    /// Talking to it failed, with this code.
    MessageError { code: u32 },
}

/// The width of the serial and model number in an `SpState`.
pub const SP_STATE_FIELD_WIDTH: usize = 32;

/// The state of an SP.
#[derive(Copy, Clone, Debug, PartialEq, Eq)]
pub struct SpState {
    pub serial_number: [u8; SP_STATE_FIELD_WIDTH],
    pub model: [u8; SP_STATE_FIELD_WIDTH],
    pub revision: u32,
    pub hubris_archive_id: [u8; 8],
    pub base_mac_address: [u8; 6],
    pub version: ImageVersion,
    pub power_state: PowerState,
    pub rot: Result<RotState, RotError>,
}

/// The length of the identifier of a component.
pub const MAX_ID_LENGTH: usize = 16;

/// A component that an SP looks after, itself included.
#[derive(Copy, Clone, Debug, PartialEq, Eq)]
pub struct SpComponent {
    pub id: [u8; MAX_ID_LENGTH],
}

impl SpComponent {
    /// No component in particular: the one whose identifier is all zeros.
    pub open spec fn blank() -> SpComponent {
        SpComponent { id: [0u8; MAX_ID_LENGTH] }
    }

    /// Compares two components by their identifiers.
    pub fn same_as(&self, other: &SpComponent) -> (same: bool)
        ensures
            same == (*self == *other),
    {
        let mut i: usize = 0;
        while i < MAX_ID_LENGTH
            invariant
                i <= MAX_ID_LENGTH,
                forall|j: int| 0 <= j < i ==> self.id@[j] == other.id@[j],
            decreases MAX_ID_LENGTH - i,
        {
            if self.id[i] != other.id[i] {
                return false;
            }
            i = i + 1;
        }
        assert(self.id =~= other.id);
        true
    }
}

/// What a reset of a component is meant to achieve.
#[derive(Copy, Clone, Debug, PartialEq, Eq)]
pub enum ResetIntent<Other> {
    Normal,
    /// Boot a chosen image from now on.
    Persistent,
    /// Boot a chosen image once.
    Transient,
    /// Any other intent, which is only passed on. None of them chooses an image.
    Other(Other),
}

/// Why a request could not be met.
#[derive(Copy, Clone, Debug, PartialEq, Eq)]
pub enum SpError {
    ResetTriggerWithoutPrepare,
    ResetComponentTriggerWithoutPrepare,
    RequestUnsupportedForComponent,
    NoCaboose,
    NoSuchCabooseKey([u8; 4]),
    CabooseReadError,
    BadCabooseChecksum,
}

/// No component in particular has zeros for its identifier, and is the only one that
/// has.
pub proof fn law_blank_is_zero(component: SpComponent)
    ensures
        component == SpComponent::blank() <==> forall|i: int|
            0 <= i < MAX_ID_LENGTH ==> component.id@[i] == 0,
{
    if forall|i: int| 0 <= i < MAX_ID_LENGTH ==> component.id@[i] == 0 {
        assert(component.id =~= SpComponent::blank().id);
    }
}

} // verus!
