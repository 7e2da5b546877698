use vstd::prelude::*;

verus! {

/// One part of a multi-segment transaction.
pub enum Segment {
    /// Send these bytes to the device.
    Write(Vec<u8>),
    /// Read this many bytes from the device.
    Read(usize),
}

/// A segment as a mathematical value.
pub ghost enum SegmentView {
    Write(Seq<u8>),
    Read(nat),
}

impl View for Segment {
    type V = SegmentView;

    open spec fn view(&self) -> SegmentView {
        match self {
            Segment::Write(bytes) => SegmentView::Write(bytes@),
            Segment::Read(len) => SegmentView::Read(*len as nat),
        }
    }
}

/// One call into an I2C transport, addressed to a single device.
///
/// Each variant names one of the transport's primitives; the read lengths
/// give the size of the buffer that the transport fills.
pub enum Transfer {
    /// Fill a buffer of `len` bytes from the device.
    Read { address: u8, len: usize },
    /// Send `bytes` to the device.
    Write { address: u8, bytes: Vec<u8> },
    /// Send `bytes`, then fill a buffer of `len` bytes, without releasing the bus.
    WriteRead { address: u8, bytes: Vec<u8>, len: usize },
    /// Run `segments` in order as one bus transaction.
    Transaction { address: u8, segments: Vec<Segment> },
}

/// A transfer as a mathematical value.
pub ghost enum TransferView {
    Read { address: u8, len: nat },
    Write { address: u8, bytes: Seq<u8> },
    WriteRead { address: u8, bytes: Seq<u8>, len: nat },
    Transaction { address: u8, segments: Seq<SegmentView> },
}

impl View for Transfer {
    type V = TransferView;

    open spec fn view(&self) -> TransferView {
        match self {
            Transfer::Read { address, len } => TransferView::Read { address: *address, len: *len as nat },
            Transfer::Write { address, bytes } => TransferView::Write { address: *address, bytes: bytes@ },
            Transfer::WriteRead { address, bytes, len } => TransferView::WriteRead {
                address: *address,
                bytes: bytes@,
                len: *len as nat,
            },
            Transfer::Transaction { address, segments } => TransferView::Transaction {
                address: *address,
                segments: segments@.map_values(|s: Segment| s@),
            },
        }
    }
}

} // verus!
