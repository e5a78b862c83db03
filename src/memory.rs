use vstd::prelude::*;

verus! {

/// The regions of the 16-bit address space.
#[derive(Clone, Copy, PartialEq, Eq, Structural, Debug)]
pub enum MemoryLocation {
    Bank0,
    BankN,
    VRam,
    ExternalRam,
    WorkRamBank0,
    WorkRamBankN,
    EchoRam,
    Oam,
    NotUsed,
    IO,
    HRam,
    InterruptEnableRegister,
}

/// The region that owns `address`.
pub open spec fn location(address: u16) -> MemoryLocation {
    if address <= 0x3FFF {
        MemoryLocation::Bank0
    } else if address <= 0x7FFF {
        MemoryLocation::BankN
    } else if address <= 0x9FFF {
        MemoryLocation::VRam
    } else if address <= 0xBFFF {
        MemoryLocation::ExternalRam
    } else if address <= 0xCFFF {
        MemoryLocation::WorkRamBank0
    } else if address <= 0xDFFF {
        MemoryLocation::WorkRamBankN
    } else if address <= 0xFDFF {
        MemoryLocation::EchoRam
    } else if address <= 0xFE9F {
        MemoryLocation::Oam
    } else if address <= 0xFEFF {
        MemoryLocation::NotUsed
    } else if address <= 0xFF7F {
        MemoryLocation::IO
    } else if address <= 0xFFFE {
        MemoryLocation::HRam
    } else {
        MemoryLocation::InterruptEnableRegister
    }
}

impl MemoryLocation {
    pub fn parse_address(address: u16) -> (r: MemoryLocation)
        ensures
            r == location(address),
    {
        if address <= 0x3FFF {
            MemoryLocation::Bank0
        } else if address <= 0x7FFF {
            MemoryLocation::BankN
        } else if address <= 0x9FFF {
            MemoryLocation::VRam
        } else if address <= 0xBFFF {
            MemoryLocation::ExternalRam
        } else if address <= 0xCFFF {
            MemoryLocation::WorkRamBank0
        } else if address <= 0xDFFF {
            MemoryLocation::WorkRamBankN
        } else if address <= 0xFDFF {
            MemoryLocation::EchoRam
        } else if address <= 0xFE9F {
            MemoryLocation::Oam
        } else if address <= 0xFEFF {
            MemoryLocation::NotUsed
        } else if address <= 0xFF7F {
            MemoryLocation::IO
        } else if address <= 0xFFFE {
            MemoryLocation::HRam
        } else {
            MemoryLocation::InterruptEnableRegister
        }
    }
}

} // verus!
