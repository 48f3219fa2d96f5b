//! The port devices of the VSC7448 switch.

use vstd::prelude::*;

verus! {

/// Where the register blocks of the switch lie, as far as it takes to find those of
/// a DEV2G5.
#[derive(Copy, Clone, Debug, PartialEq, Eq, Structural)]
pub struct RegisterLayout {
    /// The address of the first DEV2G5 register block.
    pub dev2g5_base: u32,
    /// The size of a DEV1G register block, and so of a DEV2G5 one.
    pub dev1g_size: u32,
}

/// A register block that is laid out as that of a DEV1G.
#[derive(Copy, Clone, Debug, PartialEq, Eq, Structural)]
pub enum Dev1gBlock {
    /// The block of the DEV1G with this index.
    Dev1g(u32),
    /// The block at this address.
    At(u32),
}

/// The register block of the DEV10G with this index.
#[derive(Copy, Clone, Debug, PartialEq, Eq, Structural)]
pub struct Dev10gBlock(pub u32);

/// DEV1G and DEV2G5 share the same register layout, so we can write functions
/// that use either one.
#[derive(Copy, Clone, Debug, PartialEq, Eq, Structural)]
pub enum DevGeneric {
    Dev1g(u32),
    Dev2g5(u32),
}

/// The address of the register block of the DEV2G5 with index `d`: the blocks are
/// tightly packed.
pub open spec fn dev2g5_address(layout: RegisterLayout, d: u32) -> int {
    layout.dev2g5_base + d * layout.dev1g_size
}

impl DevGeneric {
    /// Whether the switch has this device.
    pub open spec fn valid(self) -> bool {
        match self {
            DevGeneric::Dev1g(d) => d < 24,
            DevGeneric::Dev2g5(d) => d < 29,
        }
    }

    /// The index of the device's port.
    pub open spec fn port_index(self) -> int {
        match self {
            DevGeneric::Dev1g(d) => if d < 8 {
                d as int
            } else {
                d + 24
            },
            DevGeneric::Dev2g5(d) => if d <= 24 {
                d + 8
            } else {
                d + 24
            },
        }
    }

    /// The device's register block.
    pub open spec fn block(self, layout: RegisterLayout) -> Dev1gBlock {
        match self {
            DevGeneric::Dev1g(d) => Dev1gBlock::Dev1g(d),
            DevGeneric::Dev2g5(d) => Dev1gBlock::At(dev2g5_address(layout, d) as u32),
        }
    }

    /// Whether the address of the device's register block can be represented.
    pub open spec fn addressable(self, layout: RegisterLayout) -> bool {
        match self {
            DevGeneric::Dev1g(_) => true,
            DevGeneric::Dev2g5(d) => dev2g5_address(layout, d) <= u32::MAX,
        }
    }

    pub fn new_1g(d: u32) -> (dev: Self)
        requires
            d < 24,
        ensures
            dev == DevGeneric::Dev1g(d),
            dev.valid(),
    {
        DevGeneric::Dev1g(d)
    }

    pub fn new_2g5(d: u32) -> (dev: Self)
        requires
            d < 29,
        ensures
            dev == DevGeneric::Dev2g5(d),
            dev.valid(),
    {
        DevGeneric::Dev2g5(d)
    }

    /// Converts from a device index to a port index
    pub fn port(&self) -> (port: u32)
        requires
            self.port_index() <= u32::MAX,
        ensures
            port == self.port_index(),
    {
        match *self {
            DevGeneric::Dev1g(d) => {
                if d < 8 {
                    d
                } else {
                    d + 24
                }
            },
            DevGeneric::Dev2g5(d) => {
                if d <= 24 {
                    d + 8
                } else {
                    d + 24
                }
            },
        }
    }

    /// Finds the device's register block. DEV1G and DEV2G5 blocks are identical in
    /// layout, so that both can be used as that of a DEV1G.
    pub fn regs(&self, layout: RegisterLayout) -> (block: Dev1gBlock)
        requires
            self.addressable(layout),
        ensures
            block == self.block(layout),
            match *self {
                DevGeneric::Dev1g(d) => block == Dev1gBlock::Dev1g(d),
                DevGeneric::Dev2g5(d) => block matches Dev1gBlock::At(address) && address
                    == layout.dev2g5_base + d * layout.dev1g_size,
            },
    {
        match *self {
            DevGeneric::Dev1g(d) => Dev1gBlock::Dev1g(d),
            DevGeneric::Dev2g5(d) => {
                assert(0 <= d * layout.dev1g_size) by (nonlinear_arith)
                    requires
                        0 <= d,
                        0 <= layout.dev1g_size,
                ;
                Dev1gBlock::At(layout.dev2g5_base + d * layout.dev1g_size)
            },
        }
    }

    pub fn index(&self) -> (d: u32)
        ensures
            *self == DevGeneric::Dev1g(d) || *self == DevGeneric::Dev2g5(d),
    {
        match *self {
            DevGeneric::Dev1g(d) | DevGeneric::Dev2g5(d) => d,
        }
    }
}

/// Wrapper struct for a DEV10G index, which is analogous to `DevGeneric`.
/// The DEV10G target registers aren't identical to the DEV1G, so we need
/// to handle it differently.
#[derive(Copy, Clone, Debug, PartialEq, Eq, Structural)]
pub struct Dev10g(u32);

impl View for Dev10g {
    type V = u32;

    /// The index of the DEV10G.
    closed spec fn view(&self) -> u32 {
        self.0
    }
}

impl Dev10g {
    /// The switch has four DEV10Gs.
    #[verifier::type_invariant]
    spec fn in_range(self) -> bool {
        self.0 < 4
    }

    /// The index of the device's port.
    pub open spec fn port_index(self) -> int {
        self@ + 49
    }

    pub fn new(d: u32) -> (dev: Self)
        requires
            d < 4,
        ensures
            dev@ == d,
    {
        Self(d)
    }

    /// Converts from a DEV10G index to a port index
    pub fn port(&self) -> (port: u32)
        ensures
            port == self.port_index(),
            port - 49 == self@,
            49 <= port <= 52,
    {
        proof {
            use_type_invariant(self);
        }
        self.0 + 49
    }

    /// Finds the device's register block.
    pub fn regs(&self) -> (block: Dev10gBlock)
        ensures
            block == Dev10gBlock(self@),
    {
        Dev10gBlock(self.0)
    }

    pub fn index(&self) -> (d: u32)
        ensures
            d == self@,
            d < 4,
    {
        proof {
            use_type_invariant(self);
        }
        self.0
    }
}

/// Whether `a` and `b` are the DEV1G and the DEV2G5 that are given port 32 both.
pub open spec fn share_port_32(a: DevGeneric, b: DevGeneric) -> bool {
    ||| a == DevGeneric::Dev1g(8) && b == DevGeneric::Dev2g5(24)
    ||| a == DevGeneric::Dev2g5(24) && b == DevGeneric::Dev1g(8)
}

/// The devices of the switch have different ports, except that the DEV1G with index
/// 8 and the DEV2G5 with index 24 share one.
pub proof fn law_ports_differ(a: DevGeneric, b: DevGeneric)
    requires
        a.valid(),
        b.valid(),
        a != b,
        !share_port_32(a, b),
    ensures
        a.port_index() != b.port_index(),
{
}

/// Every device of the switch has one of the ports 0 to 52.
pub proof fn law_ports_in_range(dev: DevGeneric)
    requires
        dev.valid(),
    ensures
        0 <= dev.port_index() <= 52,
{
}

/// A DEV10G has the port of one of the last four DEV2G5s.
pub proof fn law_10g_port(dev: Dev10g)
    requires
        dev@ < 4,
    ensures
        dev.port_index() == DevGeneric::Dev2g5((dev@ + 25) as u32).port_index(),
        DevGeneric::Dev2g5((dev@ + 25) as u32).valid(),
{
}

/// The register blocks of the DEV2G5s do not overlap.
pub proof fn law_blocks_disjoint(layout: RegisterLayout, c: u32, d: u32)
    requires
        c < d,
    ensures
        dev2g5_address(layout, c) + layout.dev1g_size <= dev2g5_address(layout, d),
{
    let size = layout.dev1g_size as int;
    assert((c + 1) * size <= d * size) by (nonlinear_arith)
        requires
            c + 1 <= d,
            0 <= size,
    ;
    assert((c + 1) * size == c * size + size) by (nonlinear_arith);
}

/// Which devices have the port `p`: ports 0 to 7 belong to the first eight DEV1Gs, the
/// next 24 to the first 24 DEV2G5s, the next 16 to the other DEV1Gs, and the last four
/// to the last four DEV2G5s. Port 32 belongs to the DEV2G5 with index 24 too, and port 48
/// to none.
pub proof fn law_devices_of_port(dev: DevGeneric, p: u32)
    requires
        dev.valid(),
    ensures
        p < 8 ==> (dev.port_index() == p <==> dev == DevGeneric::Dev1g(p)),
        8 <= p < 32 ==> (dev.port_index() == p <==> dev == DevGeneric::Dev2g5((p - 8) as u32)),
        p == 32 ==> (dev.port_index() == p <==> dev == DevGeneric::Dev1g(8) || dev
            == DevGeneric::Dev2g5(24)),
        33 <= p < 48 ==> (dev.port_index() == p <==> dev == DevGeneric::Dev1g((p - 24) as u32)),
        p == 48 ==> dev.port_index() != p,
        49 <= p <= 52 ==> (dev.port_index() == p <==> dev == DevGeneric::Dev2g5((p - 24) as u32)),
        p > 52 ==> dev.port_index() != p,
{
}

/// The ports of neighbouring devices of a kind are neighbours, except where those of the
/// other kind lie in between.
pub proof fn law_neighbouring_ports(d: u32)
    requires
        d < u32::MAX,
    ensures
        ({
            let next = (d + 1) as u32;
            let step_1g = DevGeneric::Dev1g(next).port_index() - DevGeneric::Dev1g(d).port_index();
            let step_2g5 = DevGeneric::Dev2g5(next).port_index() - DevGeneric::Dev2g5(
                d,
            ).port_index();
            &&& step_1g == if next == 8 { 25int } else { 1 }
            &&& step_2g5 == if next == 25 { 17int } else { 1 }
        }),
{
}

/// The register block found for a DEV1G is that of the DEV1G with its own index, so that
/// different DEV1Gs have different blocks.
pub proof fn law_1g_blocks(layout: RegisterLayout, other: RegisterLayout, c: u32, d: u32)
    ensures
        DevGeneric::Dev1g(d).addressable(layout),
        DevGeneric::Dev1g(d).block(layout) matches Dev1gBlock::Dev1g(i) && i == d,
        DevGeneric::Dev1g(c).block(layout) == DevGeneric::Dev1g(d).block(other) <==> c == d,
{
}

/// The register blocks of the DEV2G5s are tightly packed: the first one lies at the base
/// address, and each one right behind the one before it.
pub proof fn law_2g5_blocks_packed(layout: RegisterLayout, d: u32)
    requires
        d < u32::MAX,
        dev2g5_address(layout, (d + 1) as u32) <= u32::MAX,
    ensures
        DevGeneric::Dev2g5(0).block(layout) == Dev1gBlock::At(layout.dev2g5_base),
        DevGeneric::Dev2g5(d).addressable(layout),
        DevGeneric::Dev2g5(d).block(layout) matches Dev1gBlock::At(here)
            && DevGeneric::Dev2g5((d + 1) as u32).block(layout) matches Dev1gBlock::At(next) && next
            == here + layout.dev1g_size,
{
    let size = layout.dev1g_size as int;
    assert((d + 1) * size == d * size + size) by (nonlinear_arith);
    assert(0 <= d * size) by (nonlinear_arith)
        requires
            0 <= d,
            0 <= size,
    ;
    assert(0 * size == 0);
}

/// A DEV2G5 can be addressed if and only if its register block starts within the
/// addresses there are.
pub proof fn law_2g5_addressable(layout: RegisterLayout, d: u32)
    ensures
        DevGeneric::Dev2g5(d).addressable(layout) <==> layout.dev2g5_base + d * layout.dev1g_size
            <= u32::MAX,
{
}

/// Different DEV10Gs have different ports.
pub proof fn law_10g_ports_differ(a: Dev10g, b: Dev10g)
    requires
        a@ != b@,
    ensures
        a.port_index() - b.port_index() == a@ - b@,
        a.port_index() != b.port_index(),
{
}

} // verus!
