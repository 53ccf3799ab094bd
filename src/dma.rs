use vstd::prelude::*;

use crate::sealed::Sealed;

use crate::instance::{
    Instance, Peripheral, FLEXCOMM0, FLEXCOMM1, FLEXCOMM15, FLEXCOMM2, FLEXCOMM3,
    FLEXCOMM4, FLEXCOMM5, FLEXCOMM6, FLEXCOMM7,
};

verus! {

/// The role of the controller that a DMA channel serves.
#[derive(Debug, Copy, Clone, PartialEq, Eq, Structural)]
pub enum Role {
    Master,
    Slave,
}

/// The DMA channel wired to `p` in `role`: instance n has channel 2n for its
/// slave and 2n + 1 for its master; instance 15 has none.
pub open spec fn dma_channel_of(p: Peripheral, role: Role) -> Option<nat> {
    if p == Peripheral::Flexcomm15 {
        None
    } else {
        match role {
            Role::Slave => Some(2 * p.spec_number()),
            Role::Master => Some(2 * p.spec_number() + 1),
        }
    }
}

/// A channel number as a mathematical value.
pub open spec fn channel_view(r: Option<usize>) -> Option<nat> {
    match r {
        Some(c) => Some(c as nat),
        None => None,
    }
}

/// The DMA channel wired to `p` in `role`, if any.
pub fn dma_channel(p: Peripheral, role: Role) -> (r: Option<usize>)
    ensures
        channel_view(r) == dma_channel_of(p, role),
        r.is_some() ==> r.unwrap() < 16,
{
    if p == Peripheral::Flexcomm15 {
        None
    } else {
        let n = p.number() as usize;
        match role {
            Role::Slave => Some(2 * n),
            Role::Master => Some(2 * n + 1),
        }
    }
}

/// Channel `N` of the first DMA controller.
pub struct DmaChannel<const N: usize>;

impl<const N: usize> Sealed for DmaChannel<N> {
}

/// Stands for a transfer without DMA.
pub struct NoDma;

impl Sealed for NoDma {
}

/// A DMA channel that may serve `T` as master.
pub trait MasterDma<T: Instance>: Sealed {
    /// The channel number, or none for a transfer without DMA.
    fn channel() -> (r: Option<usize>)
        ensures
            r.is_some() ==> channel_view(r) == dma_channel_of(T::spec_peripheral(), Role::Master);
}

/// A DMA channel that may serve `T` as slave.
pub trait SlaveDma<T: Instance>: Sealed {
    /// The channel number.
    fn channel() -> (r: Option<usize>)
        ensures
            channel_view(r) == dma_channel_of(T::spec_peripheral(), Role::Slave);
}

impl SlaveDma<FLEXCOMM0> for DmaChannel<0> {
    fn channel() -> (r: Option<usize>) {
        Some(0)
    }
}

impl MasterDma<FLEXCOMM0> for DmaChannel<1> {
    fn channel() -> (r: Option<usize>) {
        Some(1)
    }
}

impl SlaveDma<FLEXCOMM1> for DmaChannel<2> {
    fn channel() -> (r: Option<usize>) {
        Some(2)
    }
}

impl MasterDma<FLEXCOMM1> for DmaChannel<3> {
    fn channel() -> (r: Option<usize>) {
        Some(3)
    }
}

impl SlaveDma<FLEXCOMM2> for DmaChannel<4> {
    fn channel() -> (r: Option<usize>) {
        Some(4)
    }
}

impl MasterDma<FLEXCOMM2> for DmaChannel<5> {
    fn channel() -> (r: Option<usize>) {
        Some(5)
    }
}

impl SlaveDma<FLEXCOMM3> for DmaChannel<6> {
    fn channel() -> (r: Option<usize>) {
        Some(6)
    }
}

impl MasterDma<FLEXCOMM3> for DmaChannel<7> {
    fn channel() -> (r: Option<usize>) {
        Some(7)
    }
}

impl SlaveDma<FLEXCOMM4> for DmaChannel<8> {
    fn channel() -> (r: Option<usize>) {
        Some(8)
    }
}

impl MasterDma<FLEXCOMM4> for DmaChannel<9> {
    fn channel() -> (r: Option<usize>) {
        Some(9)
    }
}

impl SlaveDma<FLEXCOMM5> for DmaChannel<10> {
    fn channel() -> (r: Option<usize>) {
        Some(10)
    }
}

impl MasterDma<FLEXCOMM5> for DmaChannel<11> {
    fn channel() -> (r: Option<usize>) {
        Some(11)
    }
}

impl SlaveDma<FLEXCOMM6> for DmaChannel<12> {
    fn channel() -> (r: Option<usize>) {
        Some(12)
    }
}

impl MasterDma<FLEXCOMM6> for DmaChannel<13> {
    fn channel() -> (r: Option<usize>) {
        Some(13)
    }
}

impl SlaveDma<FLEXCOMM7> for DmaChannel<14> {
    fn channel() -> (r: Option<usize>) {
        Some(14)
    }
}

impl MasterDma<FLEXCOMM7> for DmaChannel<15> {
    fn channel() -> (r: Option<usize>) {
        Some(15)
    }
}

impl MasterDma<FLEXCOMM0> for NoDma {
    fn channel() -> (r: Option<usize>) {
        None
    }
}

impl MasterDma<FLEXCOMM1> for NoDma {
    fn channel() -> (r: Option<usize>) {
        None
    }
}

impl MasterDma<FLEXCOMM2> for NoDma {
    fn channel() -> (r: Option<usize>) {
        None
    }
}

impl MasterDma<FLEXCOMM3> for NoDma {
    fn channel() -> (r: Option<usize>) {
        None
    }
}

impl MasterDma<FLEXCOMM4> for NoDma {
    fn channel() -> (r: Option<usize>) {
        None
    }
}

impl MasterDma<FLEXCOMM5> for NoDma {
    fn channel() -> (r: Option<usize>) {
        None
    }
}

impl MasterDma<FLEXCOMM6> for NoDma {
    fn channel() -> (r: Option<usize>) {
        None
    }
}

impl MasterDma<FLEXCOMM7> for NoDma {
    fn channel() -> (r: Option<usize>) {
        None
    }
}

impl MasterDma<FLEXCOMM15> for NoDma {
    fn channel() -> (r: Option<usize>) {
        None
    }
}

} // verus!
