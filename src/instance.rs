use vstd::prelude::*;

use crate::sealed::Sealed;

verus! {

/// Number of I2C-capable peripheral instances, and so the length of every
/// per-peripheral table.
pub const I2C_COUNT: usize = 9;

/// The closed set of physical bus-controller instances that can run I2C.
#[derive(Debug, Copy, Clone, PartialEq, Eq, Structural)]
pub enum Peripheral {
    Flexcomm0,
    Flexcomm1,
    Flexcomm2,
    Flexcomm3,
    Flexcomm4,
    Flexcomm5,
    Flexcomm6,
    Flexcomm7,
    Flexcomm15,
}

impl Peripheral {
    /// The instance's number in the controller family.
    pub open spec fn spec_number(self) -> nat {
        match self {
            Peripheral::Flexcomm0 => 0,
            Peripheral::Flexcomm1 => 1,
            Peripheral::Flexcomm2 => 2,
            Peripheral::Flexcomm3 => 3,
            Peripheral::Flexcomm4 => 4,
            Peripheral::Flexcomm5 => 5,
            Peripheral::Flexcomm6 => 6,
            Peripheral::Flexcomm7 => 7,
            Peripheral::Flexcomm15 => 15,
        }
    }

    /// The slot of the instance in the per-peripheral tables: its number, but
    /// for instance 15, which takes the slot after instance 7.
    pub open spec fn spec_index(self) -> nat {
        if self == Peripheral::Flexcomm15 {
            8
        } else {
            self.spec_number()
        }
    }

    /// The instance's number in the controller family.
    pub fn number(self) -> (r: u8)
        ensures
            r == self.spec_number(),
    {
        match self {
            Peripheral::Flexcomm0 => 0,
            Peripheral::Flexcomm1 => 1,
            Peripheral::Flexcomm2 => 2,
            Peripheral::Flexcomm3 => 3,
            Peripheral::Flexcomm4 => 4,
            Peripheral::Flexcomm5 => 5,
            Peripheral::Flexcomm6 => 6,
            Peripheral::Flexcomm7 => 7,
            Peripheral::Flexcomm15 => 15,
        }
    }

    /// The slot of the instance in the per-peripheral tables.
    pub fn index(self) -> (r: usize)
        ensures
            r == self.spec_index(),
            r < I2C_COUNT,
    {
        let n = self.number();
        if n == 15 {
            8
        } else {
            n as usize
        }
    }

    /// The capability handle of the instance.
    pub fn info(self) -> (r: Info)
        ensures
            r.peripheral == self,
    {
        Info { peripheral: self }
    }
}

/// Each instance has its own slot, and every slot lies within the tables.
pub proof fn lemma_index_unique(a: Peripheral, b: Peripheral)
    ensures
        a.spec_index() < I2C_COUNT,
        a.spec_index() == b.spec_index() ==> a == b,
{
}

/// Immutable capability handle of one peripheral instance; copying it is
/// always safe, as it carries no mutable state.
#[derive(Debug, Copy, Clone, PartialEq, Eq, Structural)]
pub struct Info {
    pub peripheral: Peripheral,
}

impl Info {
    /// The slot of the peripheral in the per-peripheral tables.
    pub fn index(&self) -> (r: usize)
        ensures
            r == self.peripheral.spec_index(),
            r < I2C_COUNT,
    {
        self.peripheral.index()
    }
}

/// Shared capability of the I2C-capable instance types.
pub trait Instance: Sealed {
    /// The physical instance that the type stands for.
    spec fn spec_peripheral() -> Peripheral;

    /// The physical instance that the type stands for.
    fn peripheral() -> (r: Peripheral)
        ensures
            r == Self::spec_peripheral();
}

/// Driver mode.
pub trait Mode: Sealed {
}

/// Blocking mode.
pub struct Blocking;

impl Sealed for Blocking {
}

impl Mode for Blocking {
}

/// Async mode.
pub struct Async;

impl Sealed for Async {
}

impl Mode for Async {
}

/// Instance type of bus controller 0.
#[allow(non_camel_case_types)]
pub struct FLEXCOMM0;

impl Sealed for FLEXCOMM0 {
}

impl Instance for FLEXCOMM0 {
    open spec fn spec_peripheral() -> Peripheral {
        Peripheral::Flexcomm0
    }

    fn peripheral() -> (r: Peripheral) {
        Peripheral::Flexcomm0
    }
}

/// Instance type of bus controller 1.
#[allow(non_camel_case_types)]
pub struct FLEXCOMM1;

impl Sealed for FLEXCOMM1 {
}

impl Instance for FLEXCOMM1 {
    open spec fn spec_peripheral() -> Peripheral {
        Peripheral::Flexcomm1
    }

    fn peripheral() -> (r: Peripheral) {
        Peripheral::Flexcomm1
    }
}

/// Instance type of bus controller 2.
#[allow(non_camel_case_types)]
pub struct FLEXCOMM2;

impl Sealed for FLEXCOMM2 {
}

impl Instance for FLEXCOMM2 {
    open spec fn spec_peripheral() -> Peripheral {
        Peripheral::Flexcomm2
    }

    fn peripheral() -> (r: Peripheral) {
        Peripheral::Flexcomm2
    }
}

/// Instance type of bus controller 3.
#[allow(non_camel_case_types)]
pub struct FLEXCOMM3;

impl Sealed for FLEXCOMM3 {
}

impl Instance for FLEXCOMM3 {
    open spec fn spec_peripheral() -> Peripheral {
        Peripheral::Flexcomm3
    }

    fn peripheral() -> (r: Peripheral) {
        Peripheral::Flexcomm3
    }
}

/// Instance type of bus controller 4.
#[allow(non_camel_case_types)]
pub struct FLEXCOMM4;

impl Sealed for FLEXCOMM4 {
}

impl Instance for FLEXCOMM4 {
    open spec fn spec_peripheral() -> Peripheral {
        Peripheral::Flexcomm4
    }

    fn peripheral() -> (r: Peripheral) {
        Peripheral::Flexcomm4
    }
}

/// Instance type of bus controller 5.
#[allow(non_camel_case_types)]
pub struct FLEXCOMM5;

impl Sealed for FLEXCOMM5 {
}

impl Instance for FLEXCOMM5 {
    open spec fn spec_peripheral() -> Peripheral {
        Peripheral::Flexcomm5
    }

    fn peripheral() -> (r: Peripheral) {
        Peripheral::Flexcomm5
    }
}

/// Instance type of bus controller 6.
#[allow(non_camel_case_types)]
pub struct FLEXCOMM6;

impl Sealed for FLEXCOMM6 {
}

impl Instance for FLEXCOMM6 {
    open spec fn spec_peripheral() -> Peripheral {
        Peripheral::Flexcomm6
    }

    fn peripheral() -> (r: Peripheral) {
        Peripheral::Flexcomm6
    }
}

/// Instance type of bus controller 7.
#[allow(non_camel_case_types)]
pub struct FLEXCOMM7;

impl Sealed for FLEXCOMM7 {
}

impl Instance for FLEXCOMM7 {
    open spec fn spec_peripheral() -> Peripheral {
        Peripheral::Flexcomm7
    }

    fn peripheral() -> (r: Peripheral) {
        Peripheral::Flexcomm7
    }
}

/// Instance type of bus controller 15.
#[allow(non_camel_case_types)]
pub struct FLEXCOMM15;

impl Sealed for FLEXCOMM15 {
}

impl Instance for FLEXCOMM15 {
    open spec fn spec_peripheral() -> Peripheral {
        Peripheral::Flexcomm15
    }

    fn peripheral() -> (r: Peripheral) {
        Peripheral::Flexcomm15
    }
}

} // verus!
