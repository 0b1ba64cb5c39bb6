use vstd::prelude::*;

verus! {

/// Widest value a signed 32-bit field of the native descriptor can carry.
pub const NATIVE_INT_MAX: usize = 0x7fff_ffff;

/// Fixed parameters of one streaming session.
#[derive(Clone, Copy, Debug, PartialEq, Eq, Structural)]
pub struct Config {
    /// Vendor id of the USB digital-analog converter.
    pub vid: u16,
    /// Product id of the USB digital-analog converter.
    pub pid: u16,
    /// Interface that carries the speaker endpoint.
    pub iface: u8,
    /// Address of the isochronous output endpoint.
    pub ep: u8,
    /// Alternate setting that enables streaming.
    pub set_enabled: u8,
    /// Alternate setting that disables streaming.
    pub set_disable: u8,
    /// Bytes per isochronous packet.
    pub pkt_sz: usize,
    /// Packets per transfer.
    pub pkt_cnt: usize,
    /// Number of buffers kept in flight.
    pub buff_cnt: usize,
}

impl Config {
    /// Bytes moved by one transfer.
    pub open spec fn transfer_bytes(self) -> int {
        self.pkt_cnt * self.pkt_sz
    }

    /// 16-bit samples held by one transfer buffer.
    pub open spec fn buffer_len(self) -> int {
        self.transfer_bytes() / 2
    }

    /// The packet count and the byte length of a transfer fit the signed
    /// 32-bit fields of the native descriptor.
    pub open spec fn valid(self) -> bool {
        &&& self.pkt_cnt <= NATIVE_INT_MAX
        &&& self.transfer_bytes() <= NATIVE_INT_MAX
    }

    /// Checks that a native descriptor can describe one transfer of this configuration.
    pub fn is_valid(&self) -> (r: bool)
        ensures
            r == self.valid(),
    {
        if self.pkt_cnt > NATIVE_INT_MAX {
            return false;
        }
        match self.pkt_cnt.checked_mul(self.pkt_sz) {
            Some(bytes) => bytes <= NATIVE_INT_MAX,
            None => {
                assert(self.pkt_cnt * self.pkt_sz > usize::MAX);
                false
            },
        }
    }

    /// Bytes moved by one transfer.
    pub fn transfer_size(&self) -> (r: usize)
        requires
            self.valid(),
        ensures
            r == self.transfer_bytes(),
    {
        self.pkt_cnt * self.pkt_sz
    }

    /// Number of 16-bit samples in one transfer buffer.
    pub fn samples_per_transfer(&self) -> (r: usize)
        requires
            self.valid(),
        ensures
            r == self.buffer_len(),
    {
        self.pkt_cnt * self.pkt_sz / 2
    }
}

} // verus!
