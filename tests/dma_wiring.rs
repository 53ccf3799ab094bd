use i2c_core::dma::{dma_channel, DmaChannel, MasterDma, NoDma, Role, SlaveDma};
use i2c_core::instance::{Peripheral, FLEXCOMM0, FLEXCOMM15, FLEXCOMM4, FLEXCOMM7};

#[test]
fn dma_channel_table() {
    assert_eq!(dma_channel(Peripheral::Flexcomm0, Role::Slave), Some(0));
    assert_eq!(dma_channel(Peripheral::Flexcomm0, Role::Master), Some(1));
    assert_eq!(dma_channel(Peripheral::Flexcomm5, Role::Slave), Some(10));
    assert_eq!(dma_channel(Peripheral::Flexcomm7, Role::Master), Some(15));
    assert_eq!(dma_channel(Peripheral::Flexcomm15, Role::Master), None);
    assert_eq!(dma_channel(Peripheral::Flexcomm15, Role::Slave), None);
}

#[test]
fn dma_traits_follow_table() {
    assert_eq!(<DmaChannel<1> as MasterDma<FLEXCOMM0>>::channel(), Some(1));
    assert_eq!(<DmaChannel<8> as SlaveDma<FLEXCOMM4>>::channel(), Some(8));
    assert_eq!(<DmaChannel<14> as SlaveDma<FLEXCOMM7>>::channel(), Some(14));
    assert_eq!(<NoDma as MasterDma<FLEXCOMM15>>::channel(), None);
    assert_eq!(<NoDma as MasterDma<FLEXCOMM4>>::channel(), None);
}
