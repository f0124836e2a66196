//! The channels of each hardware family, and the driver's handle of each.
use vstd::prelude::*;

verus! {

/// Handle that stands for no channel (and for all channels, where the driver allows it).
pub const NONE_BUS: u16 = 0;

/// ISA bus channels of PEAK ISA cards.
#[derive(Debug, Clone, Copy, PartialEq, Eq, Structural)]
pub enum IsaBus {
    ISA1,
    ISA2,
    ISA3,
    ISA4,
    ISA5,
    ISA6,
    ISA7,
    ISA8,
}

/// The driver's handle of a [`IsaBus`] channel.
pub open spec fn spec_isabus_handle(b: IsaBus) -> u16 {
    match b {
        IsaBus::ISA1 => 0x21,
        IsaBus::ISA2 => 0x22,
        IsaBus::ISA3 => 0x23,
        IsaBus::ISA4 => 0x24,
        IsaBus::ISA5 => 0x25,
        IsaBus::ISA6 => 0x26,
        IsaBus::ISA7 => 0x27,
        IsaBus::ISA8 => 0x28,
    }
}

impl IsaBus {
    /// The driver's handle of this channel.
    pub fn handle(&self) -> (r: u16)
        ensures
            r == spec_isabus_handle(*self),
            r != NONE_BUS,
    {
        match self {
            IsaBus::ISA1 => 0x21,
            IsaBus::ISA2 => 0x22,
            IsaBus::ISA3 => 0x23,
            IsaBus::ISA4 => 0x24,
            IsaBus::ISA5 => 0x25,
            IsaBus::ISA6 => 0x26,
            IsaBus::ISA7 => 0x27,
            IsaBus::ISA8 => 0x28,
        }
    }

    /// The channel whose handle is `handle`, if any.
    pub fn from_handle(handle: u16) -> (r: Option<IsaBus>)
        ensures
            forall|b: IsaBus| #[trigger] spec_isabus_handle(b) == handle <==> r == Some(b),
    {
        if handle == 0x21 {
            Some(IsaBus::ISA1)
        } else if handle == 0x22 {
            Some(IsaBus::ISA2)
        } else if handle == 0x23 {
            Some(IsaBus::ISA3)
        } else if handle == 0x24 {
            Some(IsaBus::ISA4)
        } else if handle == 0x25 {
            Some(IsaBus::ISA5)
        } else if handle == 0x26 {
            Some(IsaBus::ISA6)
        } else if handle == 0x27 {
            Some(IsaBus::ISA7)
        } else if handle == 0x28 {
            Some(IsaBus::ISA8)
        } else {
            None
        }
    }
}

/// The dongle (parallel port) channel.
#[derive(Debug, Clone, Copy, PartialEq, Eq, Structural)]
pub enum DngBus {
    DNG1,
}

/// The driver's handle of a [`DngBus`] channel.
pub open spec fn spec_dngbus_handle(b: DngBus) -> u16 {
    match b {
        DngBus::DNG1 => 0x31,
    }
}

impl DngBus {
    /// The driver's handle of this channel.
    pub fn handle(&self) -> (r: u16)
        ensures
            r == spec_dngbus_handle(*self),
            r != NONE_BUS,
    {
        match self {
            DngBus::DNG1 => 0x31,
        }
    }

    /// The channel whose handle is `handle`, if any.
    pub fn from_handle(handle: u16) -> (r: Option<DngBus>)
        ensures
            forall|b: DngBus| #[trigger] spec_dngbus_handle(b) == handle <==> r == Some(b),
    {
        if handle == 0x31 {
            Some(DngBus::DNG1)
        } else {
            None
        }
    }
}

/// PCI bus channels of PEAK PCI cards.
#[derive(Debug, Clone, Copy, PartialEq, Eq, Structural)]
pub enum PciBus {
    PCI1,
    PCI2,
    PCI3,
    PCI4,
    PCI5,
    PCI6,
    PCI7,
    PCI8,
    PCI9,
    PCI10,
    PCI11,
    PCI12,
    PCI13,
    PCI14,
    PCI15,
    PCI16,
}

/// The driver's handle of a [`PciBus`] channel.
pub open spec fn spec_pcibus_handle(b: PciBus) -> u16 {
    match b {
        PciBus::PCI1 => 0x41,
        PciBus::PCI2 => 0x42,
        PciBus::PCI3 => 0x43,
        PciBus::PCI4 => 0x44,
        PciBus::PCI5 => 0x45,
        PciBus::PCI6 => 0x46,
        PciBus::PCI7 => 0x47,
        PciBus::PCI8 => 0x48,
        PciBus::PCI9 => 0x409,
        PciBus::PCI10 => 0x40a,
        PciBus::PCI11 => 0x40b,
        PciBus::PCI12 => 0x40c,
        PciBus::PCI13 => 0x40d,
        PciBus::PCI14 => 0x40e,
        PciBus::PCI15 => 0x40f,
        PciBus::PCI16 => 0x410,
    }
}

impl PciBus {
    /// The driver's handle of this channel.
    pub fn handle(&self) -> (r: u16)
        ensures
            r == spec_pcibus_handle(*self),
            r != NONE_BUS,
    {
        match self {
            PciBus::PCI1 => 0x41,
            PciBus::PCI2 => 0x42,
            PciBus::PCI3 => 0x43,
            PciBus::PCI4 => 0x44,
            PciBus::PCI5 => 0x45,
            PciBus::PCI6 => 0x46,
            PciBus::PCI7 => 0x47,
            PciBus::PCI8 => 0x48,
            PciBus::PCI9 => 0x409,
            PciBus::PCI10 => 0x40a,
            PciBus::PCI11 => 0x40b,
            PciBus::PCI12 => 0x40c,
            PciBus::PCI13 => 0x40d,
            PciBus::PCI14 => 0x40e,
            PciBus::PCI15 => 0x40f,
            PciBus::PCI16 => 0x410,
        }
    }

    /// The channel whose handle is `handle`, if any.
    pub fn from_handle(handle: u16) -> (r: Option<PciBus>)
        ensures
            forall|b: PciBus| #[trigger] spec_pcibus_handle(b) == handle <==> r == Some(b),
    {
        if handle == 0x41 {
            Some(PciBus::PCI1)
        } else if handle == 0x42 {
            Some(PciBus::PCI2)
        } else if handle == 0x43 {
            Some(PciBus::PCI3)
        } else if handle == 0x44 {
            Some(PciBus::PCI4)
        } else if handle == 0x45 {
            Some(PciBus::PCI5)
        } else if handle == 0x46 {
            Some(PciBus::PCI6)
        } else if handle == 0x47 {
            Some(PciBus::PCI7)
        } else if handle == 0x48 {
            Some(PciBus::PCI8)
        } else if handle == 0x409 {
            Some(PciBus::PCI9)
        } else if handle == 0x40a {
            Some(PciBus::PCI10)
        } else if handle == 0x40b {
            Some(PciBus::PCI11)
        } else if handle == 0x40c {
            Some(PciBus::PCI12)
        } else if handle == 0x40d {
            Some(PciBus::PCI13)
        } else if handle == 0x40e {
            Some(PciBus::PCI14)
        } else if handle == 0x40f {
            Some(PciBus::PCI15)
        } else if handle == 0x410 {
            Some(PciBus::PCI16)
        } else {
            None
        }
    }
}

/// USB channels of PEAK USB adapters.
#[derive(Debug, Clone, Copy, PartialEq, Eq, Structural)]
pub enum UsbBus {
    USB1,
    USB2,
    USB3,
    USB4,
    USB5,
    USB6,
    USB7,
    USB8,
    USB9,
    USB10,
    USB11,
    USB12,
    USB13,
    USB14,
    USB15,
    USB16,
}

/// The driver's handle of a [`UsbBus`] channel.
pub open spec fn spec_usbbus_handle(b: UsbBus) -> u16 {
    match b {
        UsbBus::USB1 => 0x51,
        UsbBus::USB2 => 0x52,
        UsbBus::USB3 => 0x53,
        UsbBus::USB4 => 0x54,
        UsbBus::USB5 => 0x55,
        UsbBus::USB6 => 0x56,
        UsbBus::USB7 => 0x57,
        UsbBus::USB8 => 0x58,
        UsbBus::USB9 => 0x509,
        UsbBus::USB10 => 0x50a,
        UsbBus::USB11 => 0x50b,
        UsbBus::USB12 => 0x50c,
        UsbBus::USB13 => 0x50d,
        UsbBus::USB14 => 0x50e,
        UsbBus::USB15 => 0x50f,
        UsbBus::USB16 => 0x510,
    }
}

impl UsbBus {
    /// The driver's handle of this channel.
    pub fn handle(&self) -> (r: u16)
        ensures
            r == spec_usbbus_handle(*self),
            r != NONE_BUS,
    {
        match self {
            UsbBus::USB1 => 0x51,
            UsbBus::USB2 => 0x52,
            UsbBus::USB3 => 0x53,
            UsbBus::USB4 => 0x54,
            UsbBus::USB5 => 0x55,
            UsbBus::USB6 => 0x56,
            UsbBus::USB7 => 0x57,
            UsbBus::USB8 => 0x58,
            UsbBus::USB9 => 0x509,
            UsbBus::USB10 => 0x50a,
            UsbBus::USB11 => 0x50b,
            UsbBus::USB12 => 0x50c,
            UsbBus::USB13 => 0x50d,
            UsbBus::USB14 => 0x50e,
            UsbBus::USB15 => 0x50f,
            UsbBus::USB16 => 0x510,
        }
    }

    /// The channel whose handle is `handle`, if any.
    pub fn from_handle(handle: u16) -> (r: Option<UsbBus>)
        ensures
            forall|b: UsbBus| #[trigger] spec_usbbus_handle(b) == handle <==> r == Some(b),
    {
        if handle == 0x51 {
            Some(UsbBus::USB1)
        } else if handle == 0x52 {
            Some(UsbBus::USB2)
        } else if handle == 0x53 {
            Some(UsbBus::USB3)
        } else if handle == 0x54 {
            Some(UsbBus::USB4)
        } else if handle == 0x55 {
            Some(UsbBus::USB5)
        } else if handle == 0x56 {
            Some(UsbBus::USB6)
        } else if handle == 0x57 {
            Some(UsbBus::USB7)
        } else if handle == 0x58 {
            Some(UsbBus::USB8)
        } else if handle == 0x509 {
            Some(UsbBus::USB9)
        } else if handle == 0x50a {
            Some(UsbBus::USB10)
        } else if handle == 0x50b {
            Some(UsbBus::USB11)
        } else if handle == 0x50c {
            Some(UsbBus::USB12)
        } else if handle == 0x50d {
            Some(UsbBus::USB13)
        } else if handle == 0x50e {
            Some(UsbBus::USB14)
        } else if handle == 0x50f {
            Some(UsbBus::USB15)
        } else if handle == 0x510 {
            Some(UsbBus::USB16)
        } else {
            None
        }
    }
}

/// PC-card channels of PEAK PC-card adapters.
#[derive(Debug, Clone, Copy, PartialEq, Eq, Structural)]
pub enum PccBus {
    PCC1,
    PCC2,
}

/// The driver's handle of a [`PccBus`] channel.
pub open spec fn spec_pccbus_handle(b: PccBus) -> u16 {
    match b {
        PccBus::PCC1 => 0x61,
        PccBus::PCC2 => 0x62,
    }
}

impl PccBus {
    /// The driver's handle of this channel.
    pub fn handle(&self) -> (r: u16)
        ensures
            r == spec_pccbus_handle(*self),
            r != NONE_BUS,
    {
        match self {
            PccBus::PCC1 => 0x61,
            PccBus::PCC2 => 0x62,
        }
    }

    /// The channel whose handle is `handle`, if any.
    pub fn from_handle(handle: u16) -> (r: Option<PccBus>)
        ensures
            forall|b: PccBus| #[trigger] spec_pccbus_handle(b) == handle <==> r == Some(b),
    {
        if handle == 0x61 {
            Some(PccBus::PCC1)
        } else if handle == 0x62 {
            Some(PccBus::PCC2)
        } else {
            None
        }
    }
}

/// LAN channels of PEAK gateways.
#[derive(Debug, Clone, Copy, PartialEq, Eq, Structural)]
pub enum LanBus {
    LAN1,
    LAN2,
    LAN3,
    LAN4,
    LAN5,
    LAN6,
    LAN7,
    LAN8,
    LAN9,
    LAN10,
    LAN11,
    LAN12,
    LAN13,
    LAN14,
    LAN15,
    LAN16,
}

/// The driver's handle of a [`LanBus`] channel.
pub open spec fn spec_lanbus_handle(b: LanBus) -> u16 {
    match b {
        LanBus::LAN1 => 0x801,
        LanBus::LAN2 => 0x802,
        LanBus::LAN3 => 0x803,
        LanBus::LAN4 => 0x804,
        LanBus::LAN5 => 0x805,
        LanBus::LAN6 => 0x806,
        LanBus::LAN7 => 0x807,
        LanBus::LAN8 => 0x808,
        LanBus::LAN9 => 0x809,
        LanBus::LAN10 => 0x80a,
        LanBus::LAN11 => 0x80b,
        LanBus::LAN12 => 0x80c,
        LanBus::LAN13 => 0x80d,
        LanBus::LAN14 => 0x80e,
        LanBus::LAN15 => 0x80f,
        LanBus::LAN16 => 0x810,
    }
}

impl LanBus {
    /// The driver's handle of this channel.
    pub fn handle(&self) -> (r: u16)
        ensures
            r == spec_lanbus_handle(*self),
            r != NONE_BUS,
    {
        match self {
            LanBus::LAN1 => 0x801,
            LanBus::LAN2 => 0x802,
            LanBus::LAN3 => 0x803,
            LanBus::LAN4 => 0x804,
            LanBus::LAN5 => 0x805,
            LanBus::LAN6 => 0x806,
            LanBus::LAN7 => 0x807,
            LanBus::LAN8 => 0x808,
            LanBus::LAN9 => 0x809,
            LanBus::LAN10 => 0x80a,
            LanBus::LAN11 => 0x80b,
            LanBus::LAN12 => 0x80c,
            LanBus::LAN13 => 0x80d,
            LanBus::LAN14 => 0x80e,
            LanBus::LAN15 => 0x80f,
            LanBus::LAN16 => 0x810,
        }
    }

    /// The channel whose handle is `handle`, if any.
    pub fn from_handle(handle: u16) -> (r: Option<LanBus>)
        ensures
            forall|b: LanBus| #[trigger] spec_lanbus_handle(b) == handle <==> r == Some(b),
    {
        if handle == 0x801 {
            Some(LanBus::LAN1)
        } else if handle == 0x802 {
            Some(LanBus::LAN2)
        } else if handle == 0x803 {
            Some(LanBus::LAN3)
        } else if handle == 0x804 {
            Some(LanBus::LAN4)
        } else if handle == 0x805 {
            Some(LanBus::LAN5)
        } else if handle == 0x806 {
            Some(LanBus::LAN6)
        } else if handle == 0x807 {
            Some(LanBus::LAN7)
        } else if handle == 0x808 {
            Some(LanBus::LAN8)
        } else if handle == 0x809 {
            Some(LanBus::LAN9)
        } else if handle == 0x80a {
            Some(LanBus::LAN10)
        } else if handle == 0x80b {
            Some(LanBus::LAN11)
        } else if handle == 0x80c {
            Some(LanBus::LAN12)
        } else if handle == 0x80d {
            Some(LanBus::LAN13)
        } else if handle == 0x80e {
            Some(LanBus::LAN14)
        } else if handle == 0x80f {
            Some(LanBus::LAN15)
        } else if handle == 0x810 {
            Some(LanBus::LAN16)
        } else {
            None
        }
    }
}

} // verus!
