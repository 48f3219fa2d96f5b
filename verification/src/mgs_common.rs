//! Provider of the answers to the management gateway that are common to all boards.

use crate::messages::{
    DiscoverResponse, ImageVersion, PowerState, ResetIntent, SpComponent, SpError, SpPort, SpState,
    MAX_ID_LENGTH, SP_STATE_FIELD_WIDTH,
};
use crate::sprot::{gateway_rot_state, rot_state, RotBootState, SprotError, UpdateTarget};
use vstd::arithmetic::div_mod::lemma_div_denominator;
use vstd::arithmetic::power::{lemma_pow0, lemma_pow_positive, pow};
use vstd::prelude::*;

verus! {

#[derive(Copy, Clone, Debug, PartialEq, Eq)]
pub struct MacAddress(pub [u8; 6]);

/// The identity of a board, from its vital product data (VPD).
#[derive(Copy, Clone, Debug, PartialEq, Eq)]
pub struct VpdIdentity<const PART_NUMBER_LEN: usize, const SERIAL_LEN: usize> {
    pub part_number: [u8; PART_NUMBER_LEN],
    pub revision: u32,
    pub serial: [u8; SERIAL_LEN],
}

/// The identity that reading it gave, or `default` where that failed.
pub open spec fn identity_or<const PART_NUMBER_LEN: usize, const SERIAL_LEN: usize, E>(
    read: Result<VpdIdentity<PART_NUMBER_LEN, SERIAL_LEN>, E>,
    default: VpdIdentity<PART_NUMBER_LEN, SERIAL_LEN>,
) -> VpdIdentity<PART_NUMBER_LEN, SERIAL_LEN> {
    match read {
        Ok(id) => id,
        Err(_) => default,
    }
}

/// Why a value could not be read from the caboose of an image.
#[derive(Copy, Clone, Debug, PartialEq, Eq, Structural)]
pub enum CabooseError {
    NoSuchTag,
    MissingCaboose,
    TlvcReaderBeginFailed,
    TlvcReadExactFailed,
    BadChecksum,
    NoImageHeader,
}

/// The components that are reset in a way of their own.
#[derive(Copy, Clone, Debug, PartialEq, Eq)]
pub struct WellKnownComponents {
    /// The service processor itself.
    pub sp_itself: SpComponent,
    /// The root of trust.
    pub rot: SpComponent,
}

/// The supervisor is to be asked to reset the service processor. That request does
/// not return.
#[derive(Copy, Clone, Debug, PartialEq, Eq, Structural)]
pub struct SystemReset;

/// What is to be done to reset a component.
#[derive(Copy, Clone, Debug, PartialEq, Eq)]
pub enum ComponentReset<'a, I> {
    /// Ask the supervisor to reset the service processor. That request does not
    /// return.
    System,
    /// Ask the root of trust to reset the component, with these arguments.
    Rot {
        intent: ResetIntent<I>,
        target: UpdateTarget,
        auth_data_len: u16,
        auth_data: &'a [u8],
    },
}

/// What the handling of requests depends on.
pub struct MgsState {
    /// Whether a reset has been prepared.
    pub reset_requested: bool,
    /// The component whose reset has been prepared.
    pub reset_component_requested: SpComponent,
    pub base_mac_address: MacAddress,
    pub components: WellKnownComponents,
}

/// The state before any request.
pub open spec fn claimed(base_mac_address: MacAddress, components: WellKnownComponents) -> MgsState {
    MgsState {
        reset_requested: false,
        reset_component_requested: SpComponent::blank(),
        base_mac_address,
        components,
    }
}

/// The state after a reset has been prepared.
pub open spec fn reset_prepared(state: MgsState) -> MgsState {
    MgsState { reset_requested: true, ..state }
}

/// The state after the reset of `component` has been prepared.
pub open spec fn component_prepared(state: MgsState, component: SpComponent) -> MgsState {
    MgsState { reset_component_requested: component, ..state }
}

/// Whether the reset of `component` may be triggered.
pub open spec fn component_armed(state: MgsState, component: SpComponent) -> bool {
    state.reset_component_requested == component
}

/// The state after the reset of `component` has been triggered.
pub open spec fn component_triggered(state: MgsState, component: SpComponent) -> MgsState {
    if component_armed(state, component) {
        MgsState { reset_component_requested: SpComponent::blank(), ..state }
    } else {
        state
    }
}

/// The image that the root of trust is to boot after a reset of `component`; `None`
/// where there is no telling.
pub open spec fn reset_target<I>(
    components: WellKnownComponents,
    component: SpComponent,
    slot: Option<u16>,
    intent: ResetIntent<I>,
) -> Option<UpdateTarget> {
    if intent is Persistent || intent is Transient {
        if component == components.rot && slot == Some(0u16) {
            Some(UpdateTarget::ImageA)
        } else if component == components.rot && slot == Some(1u16) {
            Some(UpdateTarget::ImageB)
        } else {
            None
        }
    } else {
        Some(UpdateTarget::ImageA)
    }
}

/// The answer to a request to trigger the reset of `component`.
pub open spec fn component_reset<'a, I>(
    state: MgsState,
    component: SpComponent,
    slot: Option<u16>,
    intent: ResetIntent<I>,
    auth_data: &'a [u8],
) -> Result<ComponentReset<'a, I>, SpError> {
    if !component_armed(state, component) {
        Err(SpError::ResetComponentTriggerWithoutPrepare)
    } else if component == state.components.sp_itself {
        Ok(ComponentReset::System)
    } else {
        match reset_target(state.components, component, slot, intent) {
            Some(target) => Ok(
                ComponentReset::Rot {
                    intent,
                    target,
                    auth_data_len: (auth_data@.len() % 0x1_0000) as u16,
                    auth_data,
                },
            ),
            None => Err(SpError::RequestUnsupportedForComponent),
        }
    }
}

/// The bytes `s`, followed by as many zeros as it takes to fill `width` bytes.
pub open spec fn zero_padded(s: Seq<u8>, width: nat) -> Seq<u8> {
    s + Seq::new((width - s.len()) as nat, |i: int| 0u8)
}

/// The number that `bytes` stand for, the least significant byte first.
pub open spec fn from_le_bytes(bytes: Seq<u8>) -> nat
    decreases bytes.len(),
{
    if bytes.len() == 0 {
        0
    } else {
        bytes[0] as nat + 256 * from_le_bytes(bytes.drop_first())
    }
}

/// The answer to a request for the value of `key` in the caboose, where the look-up
/// failed with this error.
pub open spec fn caboose_error(key: [u8; 4], error: CabooseError) -> SpError {
    match error {
        CabooseError::NoSuchTag => SpError::NoSuchCabooseKey(key),
        CabooseError::MissingCaboose => SpError::NoCaboose,
        CabooseError::BadChecksum => SpError::BadCabooseChecksum,
        _ => SpError::CabooseReadError,
    }
}

fn pad<const N: usize>(bytes: &[u8; N]) -> (r: [u8; SP_STATE_FIELD_WIDTH])
    requires
        N <= SP_STATE_FIELD_WIDTH,
    ensures
        r@ == zero_padded(bytes@, SP_STATE_FIELD_WIDTH as nat),
{
    let mut r = [0u8; SP_STATE_FIELD_WIDTH];
    let mut i: usize = 0;
    while i < N
        invariant
            i <= N <= SP_STATE_FIELD_WIDTH,
            r@ == zero_padded(bytes@.take(i as int), SP_STATE_FIELD_WIDTH as nat),
        decreases N - i,
    {
        r[i] = bytes[i];
        i = i + 1;
    }
    assert(bytes@.take(N as int) =~= bytes@);
    r
}

fn to_le_bytes(x: u64) -> (bytes: [u8; 8])
    ensures
        from_le_bytes(bytes@) == x,
{
    let x1: u64 = x / 256;
    let x2: u64 = x1 / 256;
    let x3: u64 = x2 / 256;
    let x4: u64 = x3 / 256;
    let x5: u64 = x4 / 256;
    let x6: u64 = x5 / 256;
    let x7: u64 = x6 / 256;
    let bytes = [
        (x % 256) as u8,
        (x1 % 256) as u8,
        (x2 % 256) as u8,
        (x3 % 256) as u8,
        (x4 % 256) as u8,
        (x5 % 256) as u8,
        (x6 % 256) as u8,
        x7 as u8,
    ];
    proof {
        reveal_with_fuel(from_le_bytes, 9);
    }
    bytes
}

/// Provider of the handling of requests that is common to all boards.
pub struct MgsCommon {
    reset_requested: bool,
    reset_component_requested: SpComponent,
    base_mac_address: MacAddress,
    components: WellKnownComponents,
}

impl View for MgsCommon {
    type V = MgsState;

    closed spec fn view(&self) -> MgsState {
        MgsState {
            reset_requested: self.reset_requested,
            reset_component_requested: self.reset_component_requested,
            base_mac_address: self.base_mac_address,
            components: self.components,
        }
    }
}

impl MgsCommon {
    /// Starts out with no reset prepared.
    pub fn claim_static_resources(
        base_mac_address: MacAddress,
        components: WellKnownComponents,
    ) -> (mgs: Self)
        ensures
            mgs@ == claimed(base_mac_address, components),
            mgs@.base_mac_address == base_mac_address,
            mgs@.components == components,
    {
        Self {
            reset_requested: false,
            reset_component_requested: SpComponent { id: [0u8; MAX_ID_LENGTH] },
            base_mac_address,
            components,
        }
    }

    /// Answers a discovery request.
    pub fn discover(&mut self, port: SpPort) -> (r: Result<DiscoverResponse, SpError>)
        ensures
            r == Ok::<DiscoverResponse, SpError>(DiscoverResponse { sp_port: port }),
            final(self)@ == old(self)@,
    {
        Ok(DiscoverResponse { sp_port: port })
    }

    /// The identity of the board, from what reading it gave; `default` where that
    /// failed.
    pub fn identity<const PART_NUMBER_LEN: usize, const SERIAL_LEN: usize, E>(
        &self,
        read: Result<VpdIdentity<PART_NUMBER_LEN, SERIAL_LEN>, E>,
        default: VpdIdentity<PART_NUMBER_LEN, SERIAL_LEN>,
    ) -> (id: VpdIdentity<PART_NUMBER_LEN, SERIAL_LEN>)
        ensures
            id == identity_or(read, default),
            read matches Ok(known) ==> id == known,
            read is Err ==> id == default,
    {
        match read {
            Ok(id) => id,
            Err(_) => default,
        }
    }

    /// The state of the service processor, from what reading the identity of the
    /// board gave, the identity to take where that failed, the identifier of the
    /// running image, its version, the power state and the answer of the root of
    /// trust to a status request.
    ///
    /// The state has extra-wide fields for the serial and model number, so that
    /// neither is truncated.
    pub fn sp_state<const PART_NUMBER_LEN: usize, const SERIAL_LEN: usize, E>(
        &mut self,
        read: Result<VpdIdentity<PART_NUMBER_LEN, SERIAL_LEN>, E>,
        default: VpdIdentity<PART_NUMBER_LEN, SERIAL_LEN>,
        image_id: u64,
        version: ImageVersion,
        power_state: PowerState,
        rot_status: Result<RotBootState, SprotError>,
    ) -> (r: Result<SpState, SpError>)
        requires
            PART_NUMBER_LEN <= SP_STATE_FIELD_WIDTH,
            SERIAL_LEN <= SP_STATE_FIELD_WIDTH,
        ensures
            final(self)@ == old(self)@,
            r matches Ok(state) && {
                let id = identity_or(read, default);
                &&& state.serial_number@ == zero_padded(id.serial@, SP_STATE_FIELD_WIDTH as nat)
                &&& state.model@ == zero_padded(id.part_number@, SP_STATE_FIELD_WIDTH as nat)
                &&& state.revision == id.revision
                &&& from_le_bytes(state.hubris_archive_id@) == image_id
                &&& forall|i: int|
                    0 <= i < 8 ==> #[trigger] state.hubris_archive_id@[i] == (image_id as int / pow(
                        256,
                        i as nat,
                    )) % 256
                &&& state.base_mac_address == old(self)@.base_mac_address.0
                &&& state.version == version
                &&& state.power_state == power_state
                &&& state.rot == gateway_rot_state(rot_status)
            },
    {
        let id = self.identity(read, default);
        let hubris_archive_id = to_le_bytes(image_id);
        proof {
            assert forall|i: int| 0 <= i < 8 implies #[trigger] hubris_archive_id@[i] == (
            image_id as int / pow(256, i as nat)) % 256 by {
                law_le_bytes_by_significance(hubris_archive_id@, i);
            }
        }
        Ok(
            SpState {
                serial_number: pad(&id.serial),
                model: pad(&id.part_number),
                revision: id.revision,
                hubris_archive_id,
                base_mac_address: self.base_mac_address.0,
                version,
                power_state,
                rot: rot_state(rot_status),
            },
        )
    }

    /// Prepares a reset.
    pub fn reset_prepare(&mut self) -> (r: Result<(), SpError>)
        ensures
            r == Ok::<(), SpError>(()),
            final(self)@ == reset_prepared(old(self)@),
    {
        self.reset_requested = true;
        Ok(())
    }

    /// Triggers the reset that was prepared.
    pub fn reset_trigger(&mut self) -> (r: Result<SystemReset, SpError>)
        ensures
            r == if old(self)@.reset_requested {
                Ok(SystemReset)
            } else {
                Err(SpError::ResetTriggerWithoutPrepare)
            },
            final(self)@ == old(self)@,
    {
        if !self.reset_requested {
            return Err(SpError::ResetTriggerWithoutPrepare);
        }
        Ok(SystemReset)
    }

    /// Answers a request for the value of `key` in the caboose of the running image,
    /// from what looking it up gave; `None` where the image has no caboose.
    ///
    /// `NoImageHeader` comes only of reading the caboose of another image, never of
    /// this one.
    pub fn get_caboose_value<'a>(
        &self,
        key: [u8; 4],
        found: Option<Result<&'a [u8], CabooseError>>,
    ) -> (r: Result<&'a [u8], SpError>)
        requires
            found != Some(Err::<&'a [u8], CabooseError>(CabooseError::NoImageHeader)),
        ensures
            r == match found {
                None => Err(SpError::NoCaboose),
                Some(Ok(value)) => Ok(value),
                Some(Err(e)) => Err(caboose_error(key, e)),
            },
    {
        match found {
            None => Err(SpError::NoCaboose),
            Some(Ok(value)) => Ok(value),
            Some(Err(e)) => Err(
                match e {
                    CabooseError::NoSuchTag => SpError::NoSuchCabooseKey(key),
                    CabooseError::MissingCaboose => SpError::NoCaboose,
                    CabooseError::TlvcReaderBeginFailed => SpError::CabooseReadError,
                    CabooseError::TlvcReadExactFailed => SpError::CabooseReadError,
                    CabooseError::BadChecksum => SpError::BadCabooseChecksum,
                    CabooseError::NoImageHeader => SpError::CabooseReadError,
                },
            ),
        }
    }

    /// Prepares the reset of `component`.
    pub fn reset_component_prepare(&mut self, component: SpComponent) -> (r: Result<(), SpError>)
        ensures
            r == Ok::<(), SpError>(()),
            final(self)@ == component_prepared(old(self)@, component),
    {
        self.reset_component_requested = component;
        Ok(())
    }

    /// Triggers the reset of `component`, if it is the one that was prepared.
    ///
    /// Here we take care of the service processor and the root of trust; any board
    /// specific way to reset a component is not our concern.
    pub fn reset_component_trigger<'a, I>(
        &mut self,
        component: SpComponent,
        slot: Option<u16>,
        intent: ResetIntent<I>,
        auth_data: &'a [u8],
    ) -> (r: Result<ComponentReset<'a, I>, SpError>)
        ensures
            r == component_reset(old(self)@, component, slot, intent, auth_data),
            final(self)@ == component_triggered(old(self)@, component),
    {
        if !self.reset_component_requested.same_as(&component) {
            return Err(SpError::ResetComponentTriggerWithoutPrepare);
        }
        // If we are not resetting the service processor itself, then we may come back
        // here.
        self.reset_component_requested = SpComponent { id: [0u8; MAX_ID_LENGTH] };

        // Resetting the service processor as a component is the same as resetting the
        // system.
        if component.same_as(&self.components.sp_itself) {
            return Ok(ComponentReset::System);
        }
        let selects_image = match intent {
            ResetIntent::Persistent | ResetIntent::Transient => true,
            _ => false,
        };
        let target = if selects_image {
            if !component.same_as(&self.components.rot) {
                return Err(SpError::RequestUnsupportedForComponent);
            }
            match slot {
                Some(0) => UpdateTarget::ImageA,
                Some(1) => UpdateTarget::ImageB,
                _ => return Err(SpError::RequestUnsupportedForComponent),
            }
        } else {
            // The root of trust ignores this value unless the intent selects an image.
            UpdateTarget::ImageA
        };
        let len: usize = auth_data.len();
        Ok(
            ComponentReset::Rot {
                intent,
                target,
                auth_data_len: (len % 0x1_0000) as u16,
                auth_data,
            },
        )
    }

    /// Answers the request to reset a component, once the root of trust has been
    /// asked to and that has had this outcome.
    ///
    /// The expected outcome is a timeout, for then the root of trust has been reset
    /// and has forgotten about the request. It rejects what it cannot do with some
    /// other error, so that it never succeeds. The error is not passed on.
    pub fn reset_component_outcome(&self, outcome: Result<(), SprotError>) -> (r: Result<
        (),
        SpError,
    >)
        requires
            outcome is Err,
        ensures
            r == Ok::<(), SpError>(()),
    {
        Ok(())
    }
}

/// A request that may change what the handling of later ones depends on.
pub enum MgsRequest {
    ResetPrepare,
    ResetTrigger,
    ResetComponentPrepare(SpComponent),
    ResetComponentTrigger(SpComponent),
}

/// The state after a request.
pub open spec fn handled(state: MgsState, request: MgsRequest) -> MgsState {
    match request {
        MgsRequest::ResetPrepare => reset_prepared(state),
        MgsRequest::ResetTrigger => state,
        MgsRequest::ResetComponentPrepare(component) => component_prepared(state, component),
        MgsRequest::ResetComponentTrigger(component) => component_triggered(state, component),
    }
}

/// The state after a series of requests.
pub open spec fn all_handled(state: MgsState, requests: Seq<MgsRequest>) -> MgsState
    decreases requests.len(),
{
    if requests.len() == 0 {
        state
    } else {
        handled(all_handled(state, requests.drop_last()), requests.last())
    }
}

/// Whether the request number `i` prepares the reset of `component` and those after it
/// neither prepare another one nor trigger this one.
pub open spec fn prepared_at(
    requests: Seq<MgsRequest>,
    component: SpComponent,
    i: int,
) -> bool {
    &&& 0 <= i < requests.len()
    &&& requests[i] == MgsRequest::ResetComponentPrepare(component)
    &&& forall|j: int|
        i < j < requests.len() ==> {
            &&& !(#[trigger] requests[j] is ResetComponentPrepare)
            &&& requests[j] != MgsRequest::ResetComponentTrigger(component)
        }
}

/// Whether `requests` leave the reset of `component` prepared.
pub open spec fn prepares(requests: Seq<MgsRequest>, component: SpComponent) -> bool {
    exists|i: int| prepared_at(requests, component, i)
}

/// A reset can be triggered if and only if it has been prepared before, at any time.
pub proof fn law_reset_needs_prepare(
    base_mac_address: MacAddress,
    components: WellKnownComponents,
    requests: Seq<MgsRequest>,
)
    ensures
        all_handled(claimed(base_mac_address, components), requests).reset_requested
            <==> requests.contains(MgsRequest::ResetPrepare),
    decreases requests.len(),
{
    if requests.len() > 0 {
        let before = requests.drop_last();
        law_reset_needs_prepare(base_mac_address, components, before);
        if before.contains(MgsRequest::ResetPrepare) {
            let i = choose|i: int| 0 <= i < before.len() && before[i] == MgsRequest::ResetPrepare;
            assert(requests[i] == MgsRequest::ResetPrepare);
        }
        if requests.contains(MgsRequest::ResetPrepare) && !(requests.last() is ResetPrepare) {
            let i = choose|i: int|
                0 <= i < requests.len() && requests[i] == MgsRequest::ResetPrepare;
            assert(before[i] == MgsRequest::ResetPrepare);
        }
        if requests.last() is ResetPrepare {
            assert(requests[requests.len() - 1] == MgsRequest::ResetPrepare);
        }
    }
}

/// The reset of a component can be triggered if and only if it has been prepared,
/// and since then neither has another one been prepared nor this one been triggered.
/// (A component whose identifier is all zeros is not told from none at all.)
pub proof fn law_component_reset_needs_prepare(
    base_mac_address: MacAddress,
    components: WellKnownComponents,
    requests: Seq<MgsRequest>,
    component: SpComponent,
)
    requires
        component != SpComponent::blank(),
    ensures
        component_armed(all_handled(claimed(base_mac_address, components), requests), component)
            <==> prepares(requests, component),
    decreases requests.len(),
{
    if requests.len() > 0 {
        let before = requests.drop_last();
        let last = requests.last();
        law_component_reset_needs_prepare(base_mac_address, components, before, component);
        let state = all_handled(claimed(base_mac_address, components), before);
        let keeps = !(last is ResetComponentPrepare) && last
            != MgsRequest::ResetComponentTrigger(component);
        if last == MgsRequest::ResetComponentPrepare(component) {
            assert(prepared_at(requests, component, requests.len() - 1));
        } else if keeps {
            assert(component_armed(handled(state, last), component) == component_armed(
                state,
                component,
            ));
            lemma_prepares_kept(requests, component);
        } else {
            assert(requests[requests.len() - 1] == last);
            assert(!prepares(requests, component));
        }
    }
}

proof fn lemma_prepares_kept(requests: Seq<MgsRequest>, component: SpComponent)
    requires
        requests.len() > 0,
        !(requests.last() is ResetComponentPrepare),
        requests.last() != MgsRequest::ResetComponentTrigger(component),
    ensures
        prepares(requests, component) <==> prepares(requests.drop_last(), component),
{
    let before = requests.drop_last();
    if prepares(before, component) {
        let i = choose|i: int| prepared_at(before, component, i);
        assert forall|j: int| i < j < before.len() implies before[j] == #[trigger] requests[j] by {}
        assert(prepared_at(requests, component, i));
    }
    if prepares(requests, component) {
        let i = choose|i: int| prepared_at(requests, component, i);
        assert(prepared_at(before, component, i));
    }
}

/// Handling requests changes neither the MAC address nor the components it goes by.
pub proof fn law_fixed_parts(state: MgsState, requests: Seq<MgsRequest>)
    ensures
        all_handled(state, requests).base_mac_address == state.base_mac_address,
        all_handled(state, requests).components == state.components,
    decreases requests.len(),
{
    if requests.len() > 0 {
        law_fixed_parts(state, requests.drop_last());
    }
}

/// A wide field gives back the bytes it was made of.
pub proof fn law_padding_keeps_bytes(s: Seq<u8>, width: nat)
    requires
        s.len() <= width,
    ensures
        zero_padded(s, width).len() == width,
        zero_padded(s, width).take(s.len() as int) == s,
        forall|i: int| s.len() <= i < width ==> zero_padded(s, width)[i] == 0,
{
}

/// A number has only one representation in a given number of bytes.
pub proof fn law_le_bytes_unique(a: Seq<u8>, b: Seq<u8>)
    requires
        a.len() == b.len(),
        from_le_bytes(a) == from_le_bytes(b),
    ensures
        a == b,
    decreases a.len(),
{
    if a.len() > 0 {
        law_le_bytes_unique(a.drop_first(), b.drop_first());
        assert(a =~= seq![a[0]] + a.drop_first());
        assert(b =~= seq![b[0]] + b.drop_first());
    }
}

/// The byte number `i` of a number stands for its multiples of 256 to the power of `i`.
pub proof fn law_le_bytes_by_significance(bytes: Seq<u8>, i: int)
    requires
        0 <= i < bytes.len(),
    ensures
        bytes[i] == (from_le_bytes(bytes) as int / pow(256, i as nat)) % 256,
    decreases bytes.len(),
{
    let x = from_le_bytes(bytes) as int;
    let rest = bytes.drop_first();
    if i == 0 {
        lemma_pow0(256);
        assert(x / 1 == x);
    } else {
        law_le_bytes_by_significance(rest, i - 1);
        let k = (i - 1) as nat;
        lemma_pow_positive(256, k);
        assert(x / 256 == from_le_bytes(rest) as int);
        lemma_div_denominator(x, 256, pow(256, k));
        assert(pow(256, i as nat) == 256 * pow(256, k)) by {
            reveal(pow);
        }
    }
}

/// Before any request no reset is prepared, of the system or of a component, and all
/// else is as it was handed over.
pub proof fn law_claimed(base_mac_address: MacAddress, components: WellKnownComponents)
    ensures
        ({
            let state = claimed(base_mac_address, components);
            &&& !state.reset_requested
            &&& forall|i: int|
                0 <= i < MAX_ID_LENGTH ==> state.reset_component_requested.id@[i] == 0
            &&& state.base_mac_address == base_mac_address
            &&& state.components.sp_itself == components.sp_itself
            &&& state.components.rot == components.rot
        }),
{
}

/// The identity of a board that could be read is what was read, whatever the default;
/// otherwise it is the default.
pub proof fn law_identity<const PART_NUMBER_LEN: usize, const SERIAL_LEN: usize, E>(
    read: Result<VpdIdentity<PART_NUMBER_LEN, SERIAL_LEN>, E>,
    default: VpdIdentity<PART_NUMBER_LEN, SERIAL_LEN>,
)
    ensures
        read matches Ok(known) ==> identity_or(read, default) == known,
        read is Err ==> identity_or(read, default) == default,
{
}

/// Whatever the slot, the intent and the authentication data: the answer to a request to
/// trigger the reset of a component is that it has not been prepared if and only if the
/// requests so far do not leave it prepared.
pub proof fn law_unprepared_component_reset_refused<'a, I>(
    base_mac_address: MacAddress,
    components: WellKnownComponents,
    requests: Seq<MgsRequest>,
    component: SpComponent,
    slot: Option<u16>,
    intent: ResetIntent<I>,
    auth_data: &'a [u8],
)
    requires
        component != SpComponent::blank(),
    ensures
        component_reset(
            all_handled(claimed(base_mac_address, components), requests),
            component,
            slot,
            intent,
            auth_data,
        ) == Err::<ComponentReset<'a, I>, SpError>(SpError::ResetComponentTriggerWithoutPrepare)
            <==> !prepares(requests, component),
{
    law_component_reset_needs_prepare(base_mac_address, components, requests, component);
}

/// A component whose identifier is all zeros is taken for prepared as long as the
/// requests so far leave no other component prepared, and refused otherwise.
pub proof fn law_blank_component_reset<'a, I>(
    base_mac_address: MacAddress,
    components: WellKnownComponents,
    requests: Seq<MgsRequest>,
    slot: Option<u16>,
    intent: ResetIntent<I>,
    auth_data: &'a [u8],
)
    ensures
        component_reset(
            all_handled(claimed(base_mac_address, components), requests),
            SpComponent::blank(),
            slot,
            intent,
            auth_data,
        ) == Err::<ComponentReset<'a, I>, SpError>(SpError::ResetComponentTriggerWithoutPrepare)
            <==> exists|other: SpComponent|
            other != SpComponent::blank() && prepares(requests, other),
{
    let state = all_handled(claimed(base_mac_address, components), requests);
    let pending = state.reset_component_requested;
    if pending != SpComponent::blank() {
        law_component_reset_needs_prepare(base_mac_address, components, requests, pending);
        assert(prepares(requests, pending));
    } else {
        assert forall|other: SpComponent| other != SpComponent::blank() implies !prepares(
            requests,
            other,
        ) by {
            law_component_reset_needs_prepare(base_mac_address, components, requests, other);
        }
    }
}

/// The system is reset if and only if the component that was prepared is the service
/// processor itself, whatever the slot, the intent and the authentication data.
pub proof fn law_system_reset<'a, I>(
    state: MgsState,
    component: SpComponent,
    slot: Option<u16>,
    intent: ResetIntent<I>,
    auth_data: &'a [u8],
)
    ensures
        component_reset(state, component, slot, intent, auth_data) == Ok::<
            ComponentReset<'a, I>,
            SpError,
        >(ComponentReset::System) <==> state.reset_component_requested == component && component
            == state.components.sp_itself,
{
}

/// A prepared component other than the service processor itself cannot be reset if and
/// only if the intent is to choose an image and the component is not the root of trust or
/// the slot is neither of its two.
pub proof fn law_unsupported_component_reset<'a, I>(
    state: MgsState,
    component: SpComponent,
    slot: Option<u16>,
    intent: ResetIntent<I>,
    auth_data: &'a [u8],
)
    requires
        state.reset_component_requested == component,
        component != state.components.sp_itself,
    ensures
        component_reset(state, component, slot, intent, auth_data) == Err::<
            ComponentReset<'a, I>,
            SpError,
        >(SpError::RequestUnsupportedForComponent) <==> (intent is Persistent || intent is Transient)
            && (component != state.components.rot || !(slot matches Some(n) && n < 2)),
        component_reset(state, component, slot, intent, auth_data) is Err ==> component_reset(
            state,
            component,
            slot,
            intent,
            auth_data,
        ) == Err::<ComponentReset<'a, I>, SpError>(SpError::RequestUnsupportedForComponent),
{
}

/// What the root of trust is asked to do: it is asked on behalf of a prepared component
/// only, is given the intent and the authentication data as they came, with the length of
/// the latter in 16 bits, and is to boot the image in the slot that was chosen. Where the
/// intent chooses none, that is image A, whatever the slot.
pub proof fn law_rot_asked<'a, I>(
    state: MgsState,
    component: SpComponent,
    slot: Option<u16>,
    intent: ResetIntent<I>,
    auth_data: &'a [u8],
)
    ensures
        component_reset(state, component, slot, intent, auth_data) matches Ok(
            ComponentReset::Rot {
                intent: asked,
                target,
                auth_data_len,
                auth_data: passed_on,
            },
        ) ==> {
            let chooses = intent is Persistent || intent is Transient;
            &&& state.reset_component_requested == component
            &&& component != state.components.sp_itself
            &&& asked == intent
            &&& passed_on == auth_data
            &&& auth_data@.len() < 0x1_0000 ==> auth_data_len == auth_data@.len()
            &&& (auth_data@.len() - auth_data_len) % 0x1_0000 == 0
            &&& chooses ==> component == state.components.rot
            &&& chooses && slot == Some(0u16) ==> target is ImageA
            &&& chooses && slot == Some(1u16) ==> target is ImageB
            &&& chooses ==> slot == Some(0u16) || slot == Some(1u16)
            &&& !chooses ==> target is ImageA
        },
{
}

/// Where the intent is not to choose an image, the slot makes no difference.
pub proof fn law_slot_ignored<'a, I>(
    state: MgsState,
    component: SpComponent,
    slot: Option<u16>,
    other_slot: Option<u16>,
    intent: ResetIntent<I>,
    auth_data: &'a [u8],
)
    requires
        !(intent is Persistent),
        !(intent is Transient),
    ensures
        component_reset(state, component, slot, intent, auth_data) == component_reset(
            state,
            component,
            other_slot,
            intent,
            auth_data,
        ),
{
}

/// Once the reset of a component has been triggered, it has to be prepared again; one
/// that was refused for want of preparation changes nothing.
pub proof fn law_trigger_uses_up_prepare(state: MgsState, component: SpComponent)
    ensures
        ({
            let after = component_triggered(state, component);
            &&& state.reset_component_requested == component && component
                != SpComponent::blank() ==> after.reset_component_requested != component
            &&& state.reset_component_requested != component ==> after == state
            &&& after.reset_requested == state.reset_requested
        }),
{
}

/// Each answer for want of a value in the caboose has its own causes: a key that is not
/// there is named, and only a missing caboose, a wrong checksum and a failure to read are
/// told apart from it.
pub proof fn law_caboose_errors(key: [u8; 4], error: CabooseError)
    requires
        !(error is NoImageHeader),
    ensures
        caboose_error(key, error) matches SpError::NoSuchCabooseKey(named) ==> named == key,
        caboose_error(key, error) is NoSuchCabooseKey <==> error is NoSuchTag,
        caboose_error(key, error) is NoCaboose <==> error is MissingCaboose,
        caboose_error(key, error) is BadCabooseChecksum <==> error is BadChecksum,
        caboose_error(key, error) is CabooseReadError <==> error is TlvcReaderBeginFailed || error is TlvcReadExactFailed,
{
}

} // verus!
