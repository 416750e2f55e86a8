use vstd::prelude::*;

verus! {

/// Interrupts of a 16550 serial port.
#[derive(Debug, Clone, Copy, PartialEq, Eq, Structural)]
pub enum UARTInts {
    /// Received data available (ERBFI).
    ReceivedDataAvalaible,
    /// Transmitter holding register empty (ETBEI).
    TransmitterHoldingRegisterEmpty,
    /// Receiver line status (ELSI).
    ReceiverLineStatus,
    /// Modem status (EDSSI).
    MODEMStatus,
    /// Character timeout; it cannot be enabled, only raised.
    CharacterTimeoutIndication,
}

impl UARTInts {
    /// Enable mask of every interrupt that can be enabled.
    pub fn all() -> (r: u8)
        ensures
            r == 0b1111,
    {
        0b1111
    }

    /// The interrupt an interrupt-identification value (bits 3:1) names.
    pub open spec fn spec_parse(s: u8) -> Option<UARTInts> {
        if s == 0x00 {
            Some(UARTInts::MODEMStatus)
        } else if s == 0x02 {
            Some(UARTInts::TransmitterHoldingRegisterEmpty)
        } else if s == 0x04 {
            Some(UARTInts::ReceivedDataAvalaible)
        } else if s == 0x06 {
            Some(UARTInts::ReceiverLineStatus)
        } else if s == 0x0C {
            Some(UARTInts::CharacterTimeoutIndication)
        } else {
            None
        }
    }

    /// The interrupt an interrupt-identification value (bits 3:1) names.
    pub fn parse(s: u8) -> (r: Option<Self>)
        ensures
            r == Self::spec_parse(s),
    {
        match s {
            0x00 => Some(Self::MODEMStatus),
            0x02 => Some(Self::TransmitterHoldingRegisterEmpty),
            0x04 => Some(Self::ReceivedDataAvalaible),
            0x06 => Some(Self::ReceiverLineStatus),
            0x0C => Some(Self::CharacterTimeoutIndication),
            _ => None,
        }
    }
}

} // verus!
