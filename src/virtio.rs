use vstd::prelude::*;

verus! {

/// Address of the first virtio MMIO slot.
pub const VIRTIO_START: usize = 0x1000_1000;

/// Address of the last virtio MMIO slot.
pub const VIRTIO_END: usize = 0x1000_8000;

/// Distance between two virtio MMIO slots.
pub const VIRTIO_STRIDE: usize = 0x1000;

/// Number of virtio MMIO slots.
pub const VIRTIO_COUNT: usize = 8;

/// `"virt"` in little endian: the magic value of a virtio device.
pub const VIRTIO_MAGIC: u32 = 0x74_72_69_76;

/// A virtio device in MMIO slot `idx`.
#[derive(Debug, Clone, Copy, PartialEq, Eq, Structural)]
pub struct StandardVirtIO {
    pub idx: usize,
    pub read_only: bool,
}

impl StandardVirtIO {
    /// Address of the device's register window.
    pub fn base(&self) -> (r: usize)
        requires
            self.idx < VIRTIO_COUNT,
        ensures
            r == VIRTIO_START + self.idx * VIRTIO_STRIDE,
    {
        VIRTIO_START + self.idx * VIRTIO_STRIDE
    }
}

/// Registers of a virtio MMIO device (legacy layout).
#[derive(Debug, Clone, Copy, PartialEq, Eq, Structural)]
pub enum MmioOffset {
    MagicValue,
    Version,
    DeviceId,
    VendorId,
    DeviceFeatures,
    DeviceFeaturesSel,
    DriverFeatures,
    DriverFeaturesSel,
    DriverPageSize,
    QueueSel,
    QueueNumMax,
    QueueNum,
    QueueAlign,
    QueuePfn,
    QueueNotify,
    InterruptStatus,
    InterruptAck,
    Status,
    Config,
}

impl MmioOffset {
    /// Offset of the register from the device's base address.
    pub open spec fn offset(self) -> u64 {
        match self {
            MmioOffset::MagicValue => 0x000,
            MmioOffset::Version => 0x004,
            MmioOffset::DeviceId => 0x008,
            MmioOffset::VendorId => 0x00c,
            MmioOffset::DeviceFeatures => 0x010,
            MmioOffset::DeviceFeaturesSel => 0x014,
            MmioOffset::DriverFeatures => 0x020,
            MmioOffset::DriverFeaturesSel => 0x024,
            MmioOffset::DriverPageSize => 0x028,
            MmioOffset::QueueSel => 0x030,
            MmioOffset::QueueNumMax => 0x034,
            MmioOffset::QueueNum => 0x038,
            MmioOffset::QueueAlign => 0x03c,
            MmioOffset::QueuePfn => 0x040,
            MmioOffset::QueueNotify => 0x050,
            MmioOffset::InterruptStatus => 0x060,
            MmioOffset::InterruptAck => 0x064,
            MmioOffset::Status => 0x070,
            MmioOffset::Config => 0x100,
        }
    }

    /// Offset of the register from the device's base address.
    pub fn ptr(self) -> (r: u64)
        ensures
            r == self.offset(),
    {
        match self {
            MmioOffset::MagicValue => 0x000,
            MmioOffset::Version => 0x004,
            MmioOffset::DeviceId => 0x008,
            MmioOffset::VendorId => 0x00c,
            MmioOffset::DeviceFeatures => 0x010,
            MmioOffset::DeviceFeaturesSel => 0x014,
            MmioOffset::DriverFeatures => 0x020,
            MmioOffset::DriverFeaturesSel => 0x024,
            MmioOffset::DriverPageSize => 0x028,
            MmioOffset::QueueSel => 0x030,
            MmioOffset::QueueNumMax => 0x034,
            MmioOffset::QueueNum => 0x038,
            MmioOffset::QueueAlign => 0x03c,
            MmioOffset::QueuePfn => 0x040,
            MmioOffset::QueueNotify => 0x050,
            MmioOffset::InterruptStatus => 0x060,
            MmioOffset::InterruptAck => 0x064,
            MmioOffset::Status => 0x070,
            MmioOffset::Config => 0x100,
        }
    }
}

/// Device types by virtio device id.
#[derive(Debug, Clone, Copy, PartialEq, Eq, Structural)]
pub enum DeviceType {
    Network,
    Block,
    Console,
    Entropy,
    Gpu,
    Input,
    Memory,
}

impl DeviceType {
    pub open spec fn spec_id(self) -> u32 {
        match self {
            DeviceType::Network => 1,
            DeviceType::Block => 2,
            DeviceType::Console => 3,
            DeviceType::Entropy => 4,
            DeviceType::Gpu => 16,
            DeviceType::Input => 18,
            DeviceType::Memory => 24,
        }
    }
}

/// Bits of the device status register.
#[derive(Debug, Clone, Copy, PartialEq, Eq, Structural)]
pub enum StatusField {
    /// The guest found the device and recognised it as virtio.
    Acknowledge,
    /// The guest knows how to drive the device.
    Driver,
    /// The driver is set up and ready.
    DriverOk,
    /// Feature negotiation is complete.
    FeaturesOk,
    /// The device hit an error it cannot recover from.
    DeviceNeedsReset,
    /// The guest gave up on the device.
    Failed,
}

impl StatusField {
    pub open spec fn spec_bit(self) -> u32 {
        match self {
            StatusField::Acknowledge => 1,
            StatusField::Driver => 2,
            StatusField::DriverOk => 4,
            StatusField::FeaturesOk => 8,
            StatusField::DeviceNeedsReset => 64,
            StatusField::Failed => 128,
        }
    }

    /// The bit of the status register.
    pub fn bit(self) -> (r: u32)
        ensures
            r == self.spec_bit(),
    {
        match self {
            StatusField::Acknowledge => 1,
            StatusField::Driver => 2,
            StatusField::DriverOk => 4,
            StatusField::FeaturesOk => 8,
            StatusField::DeviceNeedsReset => 64,
            StatusField::Failed => 128,
        }
    }
}

} // verus!
