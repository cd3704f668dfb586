use vstd::prelude::*;
use crate::binary::EncodeByte;
use crate::error::RangeError;

verus! {

/// The usage pages of a report descriptor.
#[derive(Debug, Copy, Clone, PartialEq, Eq, Structural)]
pub enum Usage {
    GenericDesktop,
    Simulation,
    Vr,
    Sport,
    Game,
    GenericDevice,
    Keyboard,
    Led,
    Button,
    Ordinal,
    Telephony,
    Consumer,
    Digitizer,
    Pid,
    Unicode,
    AlphanumericDisplay,
    MedicalInstruments,
    Monitor,
    MonitorEnumerated,
    MonitorVirtual,
    MonitorReserved,
    Power,
    PowerReserved,
    PowerBattery,
    PowerBatterySystem,
    PowerSystem,
    PowerDevice,
    PowerCharger,
    PowerChargerReserved,
    BarCodeScanner,
    Scale,
    MagneticStripeReader,
    ReservedPointOfSale,
    CameraControl,
    Arcade,
    VendorDefined,
    Undefined,
}

impl Usage {
    /// The code of the usage page.
    pub open spec fn code(self) -> u8 {
        match self {
            Usage::GenericDesktop => 0x01,
            Usage::Simulation => 0x02,
            Usage::Vr => 0x03,
            Usage::Sport => 0x04,
            Usage::Game => 0x05,
            Usage::GenericDevice => 0x06,
            Usage::Keyboard => 0x07,
            Usage::Led => 0x08,
            Usage::Button => 0x09,
            Usage::Ordinal => 0x0A,
            Usage::Telephony => 0x0B,
            Usage::Consumer => 0x0C,
            Usage::Digitizer => 0x0D,
            Usage::Pid => 0x0F,
            Usage::Unicode => 0x10,
            Usage::AlphanumericDisplay => 0x14,
            Usage::MedicalInstruments => 0x40,
            Usage::Monitor => 0x80,
            Usage::MonitorEnumerated => 0x81,
            Usage::MonitorVirtual => 0x82,
            Usage::MonitorReserved => 0x83,
            Usage::Power => 0x84,
            Usage::PowerReserved => 0x85,
            Usage::PowerBattery => 0x86,
            Usage::PowerBatterySystem => 0x87,
            Usage::PowerSystem => 0x88,
            Usage::PowerDevice => 0x89,
            Usage::PowerCharger => 0x8A,
            Usage::PowerChargerReserved => 0x8B,
            Usage::BarCodeScanner => 0x8C,
            Usage::Scale => 0x8D,
            Usage::MagneticStripeReader => 0x8E,
            Usage::ReservedPointOfSale => 0x8F,
            Usage::CameraControl => 0x90,
            Usage::Arcade => 0x91,
            Usage::VendorDefined => 0xFF,
            Usage::Undefined => 0x00,
        }
    }
}

impl EncodeByte for Usage {
    open spec fn encoded(&self) -> Result<u8, RangeError> {
        Ok(self.code())
    }

    fn encode(&self) -> (r: Result<u8, RangeError>) {
        match *self {
            Usage::GenericDesktop => Ok(0x01),
            Usage::Simulation => Ok(0x02),
            Usage::Vr => Ok(0x03),
            Usage::Sport => Ok(0x04),
            Usage::Game => Ok(0x05),
            Usage::GenericDevice => Ok(0x06),
            Usage::Keyboard => Ok(0x07),
            Usage::Led => Ok(0x08),
            Usage::Button => Ok(0x09),
            Usage::Ordinal => Ok(0x0A),
            Usage::Telephony => Ok(0x0B),
            Usage::Consumer => Ok(0x0C),
            Usage::Digitizer => Ok(0x0D),
            Usage::Pid => Ok(0x0F),
            Usage::Unicode => Ok(0x10),
            Usage::AlphanumericDisplay => Ok(0x14),
            Usage::MedicalInstruments => Ok(0x40),
            Usage::Monitor => Ok(0x80),
            Usage::MonitorEnumerated => Ok(0x81),
            Usage::MonitorVirtual => Ok(0x82),
            Usage::MonitorReserved => Ok(0x83),
            Usage::Power => Ok(0x84),
            Usage::PowerReserved => Ok(0x85),
            Usage::PowerBattery => Ok(0x86),
            Usage::PowerBatterySystem => Ok(0x87),
            Usage::PowerSystem => Ok(0x88),
            Usage::PowerDevice => Ok(0x89),
            Usage::PowerCharger => Ok(0x8A),
            Usage::PowerChargerReserved => Ok(0x8B),
            Usage::BarCodeScanner => Ok(0x8C),
            Usage::Scale => Ok(0x8D),
            Usage::MagneticStripeReader => Ok(0x8E),
            Usage::ReservedPointOfSale => Ok(0x8F),
            Usage::CameraControl => Ok(0x90),
            Usage::Arcade => Ok(0x91),
            Usage::VendorDefined => Ok(0xFF),
            Usage::Undefined => Ok(0x00),
        }
    }
}

} // verus!
