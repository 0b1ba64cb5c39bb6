use crate::config::Config;
use crate::error::StreamError;
use crate::native::{iso_transfer_type, send_result, TRANSFER_TYPE_ISOCHRONOUS};
use crate::signal::{fill_buff, Waveform};
use crate::submission::Submission;
use futures::channel::oneshot::Sender;
use vstd::prelude::*;

verus! {

/// What the native layer reports when a transfer has run its course.
#[derive(Debug, Clone, Copy, PartialEq, Eq, Structural)]
pub struct TransferResult {
    /// Ring slot of the buffer that was transferred.
    pub idx: usize,
    /// Completion status; zero is success.
    pub status: i32,
    /// Bytes actually moved.
    pub actual_length: i32,
}

/// One entry of the per-packet table of an isochronous transfer.
#[derive(Debug, Clone, Copy, PartialEq, Eq, Structural)]
pub struct IsoPacket {
    /// Bytes requested for this packet.
    pub length: u32,
    /// Bytes moved, written by the native layer.
    pub actual_length: u32,
    /// Packet status, written by the native layer.
    pub status: i32,
}

/// The values that the native transfer descriptor of one buffer must hold.
#[derive(Debug)]
pub struct TransferDescriptor {
    /// Endpoint address.
    pub endpoint: u8,
    /// Transfer kind.
    pub transfer_type: u8,
    /// Timeout in milliseconds; zero waits forever.
    pub timeout: u32,
    /// Number of isochronous packets.
    pub num_iso_packets: i32,
    /// Length of the whole buffer in bytes.
    pub length: i32,
    /// The packet table, one entry per packet.
    pub packets: Vec<IsoPacket>,
}

impl TransferDescriptor {
    /// The descriptor of one transfer of `cfg`: isochronous, without timeout,
    /// `pkt_cnt` untouched packets of `pkt_sz` bytes each.
    pub open spec fn describes(&self, cfg: Config) -> bool {
        &&& self.endpoint == cfg.ep
        &&& self.transfer_type == TRANSFER_TYPE_ISOCHRONOUS
        &&& self.timeout == 0
        &&& self.num_iso_packets == cfg.pkt_cnt
        &&& self.length == cfg.transfer_bytes()
        &&& self.packets@.len() == cfg.pkt_cnt
        &&& forall|i: int|
            0 <= i < cfg.pkt_cnt ==> {
                &&& (#[trigger] self.packets@[i]).length == cfg.pkt_sz
                &&& self.packets@[i].actual_length == 0
                &&& self.packets@[i].status == 0
            }
    }
}

/// A packet of `pkt_sz` bytes is no larger than the whole transfer.
proof fn lemma_packet_fits(pkt_cnt: int, pkt_sz: int)
    requires
        pkt_cnt >= 1,
        pkt_sz >= 0,
    ensures
        pkt_sz <= pkt_cnt * pkt_sz,
{
    assert(pkt_sz <= pkt_cnt * pkt_sz) by (nonlinear_arith)
        requires
            pkt_cnt >= 1,
            pkt_sz >= 0,
    ;
}

/// Lays out the native descriptor of one transfer, given whether the native
/// allocator delivered one.
pub fn alloc_xfer(cfg: &Config, allocated: bool) -> (r: Result<TransferDescriptor, StreamError>)
    requires
        cfg.valid(),
    ensures
        allocated ==> r is Ok && r->Ok_0.describes(*cfg),
        !allocated ==> r == Err::<TransferDescriptor, StreamError>(StreamError::AllocationFailed),
{
    if !allocated {
        return Err(StreamError::AllocationFailed);
    }
    let sz: usize = cfg.transfer_size();
    let mut packets: Vec<IsoPacket> = Vec::new();
    let mut i: usize = 0;
    while i < cfg.pkt_cnt
        invariant
            i <= cfg.pkt_cnt,
            cfg.valid(),
            packets@.len() == i,
            forall|k: int|
                0 <= k < i ==> {
                    &&& (#[trigger] packets@[k]).length == cfg.pkt_sz
                    &&& packets@[k].actual_length == 0
                    &&& packets@[k].status == 0
                },
        decreases cfg.pkt_cnt - i,
    {
        proof {
            lemma_packet_fits(cfg.pkt_cnt as int, cfg.pkt_sz as int);
        }
        packets.push(IsoPacket { length: cfg.pkt_sz as u32, actual_length: 0, status: 0 });
        i += 1;
    }
    Ok(
        TransferDescriptor {
            endpoint: cfg.ep,
            transfer_type: iso_transfer_type(),
            timeout: 0,
            num_iso_packets: cfg.pkt_cnt as i32,
            length: sz as i32,
            packets,
        },
    )
}

/// The completion context that travels with a submitted transfer and comes
/// back, once, through the completion callback.
#[derive(Debug)]
pub struct TransferContext {
    idx: usize,
    result_tail: Option<Sender<TransferResult>>,
    delivered: Option<TransferResult>,
}

impl TransferContext {
    /// Ring slot of the transfer.
    pub closed spec fn slot(&self) -> usize {
        self.idx
    }

    /// The context has not delivered its result yet.
    pub closed spec fn armed(&self) -> bool {
        self.result_tail is Some
    }

    /// The result that the context handed to its result slot, once it has.
    pub closed spec fn delivered(&self) -> Option<TransferResult> {
        self.delivered
    }

    /// Wraps the sending half of a result slot for the transfer in slot `idx`.
    pub(crate) fn new(idx: usize, result_tail: Sender<TransferResult>) -> (r: TransferContext)
        ensures
            r.slot() == idx,
            r.armed(),
            r.delivered() is None,
    {
        TransferContext { idx, result_tail: Some(result_tail), delivered: None }
    }

    /// Ring slot of the transfer.
    pub fn idx(&self) -> (r: usize)
        ensures
            r == self.slot(),
    {
        self.idx
    }

    /// Whether the context has not delivered its result yet.
    pub fn is_armed(&self) -> (r: bool)
        ensures
            r == self.armed(),
    {
        self.result_tail.is_some()
    }

    /// The result that the context handed to its result slot, once it has.
    pub fn delivered_result(&self) -> (r: Option<TransferResult>)
        ensures
            r == self.delivered(),
    {
        self.delivered
    }

    /// The result that this context delivers for a transfer that ended with
    /// `status` after moving `actual_length` bytes.
    pub fn report(&self, status: i32, actual_length: i32) -> (r: TransferResult)
        ensures
            r == (TransferResult { idx: self.slot(), status, actual_length }),
    {
        TransferResult { idx: self.idx, status, actual_length }
    }

    /// What the completion callback reports, given what the result slot said
    /// to the value: a slot whose reader is gone is a protocol violation.
    pub fn delivery(sent: Result<(), TransferResult>) -> (r: Result<(), StreamError>)
        ensures
            sent is Ok ==> r is Ok,
            sent is Err ==> r == Err::<(), StreamError>(StreamError::ProtocolViolation),
    {
        match sent {
            Ok(()) => Ok(()),
            Err(_) => Err(StreamError::ProtocolViolation),
        }
    }

    /// The completion callback: hands the report of `status` and
    /// `actual_length` for this slot to the result slot.
    ///
    /// The first call spends the context and records the result it handed
    /// over; every later call is refused as a protocol violation and changes
    /// nothing.
    pub fn complete(&mut self, status: i32, actual_length: i32) -> (r: Result<(), StreamError>)
        ensures
            final(self).slot() == old(self).slot(),
            !final(self).armed(),
            old(self).armed() ==> final(self).delivered() == Some(
                TransferResult { idx: old(self).slot(), status, actual_length },
            ),
            !old(self).armed() ==> {
                &&& r == Err::<(), StreamError>(StreamError::ProtocolViolation)
                &&& final(self).delivered() == old(self).delivered()
            },
            r is Err ==> r == Err::<(), StreamError>(StreamError::ProtocolViolation),
    {
        match self.result_tail.take() {
            None => Err(StreamError::ProtocolViolation),
            Some(tail) => {
                let result = self.report(status, actual_length);
                self.delivered = Some(result);
                Self::delivery(send_result(tail, result))
            },
        }
    }
}

/// One ring slot: a sample buffer and the layout of its native descriptor.
///
/// A buffer is handed to its submission by value and comes back by value when
/// that submission has resolved, so at every moment it is either in the hands
/// of its holder, who may fill it, or inside the one submission over it.
#[derive(Debug)]
pub struct Transfer {
    idx: usize,
    buff: Vec<i16>,
    xfer: TransferDescriptor,
}

impl Transfer {
    /// Ring slot of this buffer.
    pub closed spec fn slot(&self) -> usize {
        self.idx
    }

    /// The samples in the buffer.
    pub closed spec fn view(&self) -> Seq<i16> {
        self.buff@
    }

    /// The layout of the native descriptor.
    pub closed spec fn layout(&self) -> TransferDescriptor {
        self.xfer
    }

    /// Creates the buffer of slot `idx`, silent, with the layout of its
    /// descriptor; fails when the native allocator delivered none.
    pub fn new(idx: usize, cfg: &Config, allocated: bool) -> (r: Result<Transfer, StreamError>)
        requires
            cfg.valid(),
        ensures
            !allocated ==> r is Err && r->Err_0 == StreamError::AllocationFailed,
            allocated ==> {
                &&& r is Ok
                &&& r->Ok_0.slot() == idx
                &&& r->Ok_0@ == Seq::new(cfg.buffer_len() as nat, |k: int| 0i16)
                &&& r->Ok_0.layout().describes(*cfg)
            },
    {
        let n: usize = cfg.samples_per_transfer();
        let mut buff: Vec<i16> = Vec::new();
        let mut k: usize = 0;
        while k < n
            invariant
                k <= n,
                buff@.len() == k,
                forall|j: int| 0 <= j < k ==> buff@[j] == 0i16,
            decreases n - k,
        {
            buff.push(0i16);
            k += 1;
        }
        assert(buff@ =~= Seq::new(cfg.buffer_len() as nat, |k: int| 0i16));
        match alloc_xfer(cfg, allocated) {
            Ok(xfer) => Ok(Transfer { idx, buff, xfer }),
            Err(e) => Err(e),
        }
    }

    /// Ring slot of this buffer.
    pub fn idx(&self) -> (r: usize)
        ensures
            r == self.slot(),
    {
        self.idx
    }

    /// The samples in the buffer.
    pub fn buffer(&self) -> (r: &Vec<i16>)
        ensures
            r@ == self@,
    {
        &self.buff
    }

    /// The layout of the native descriptor.
    pub fn descriptor(&self) -> (r: &TransferDescriptor)
        ensures
            *r == self.layout(),
    {
        &self.xfer
    }

    /// Overwrites the whole buffer with the next run of the signal and
    /// advances the sample clock by the length of the buffer.
    pub fn fill(&mut self, samp_idx: &mut usize, wave: &Waveform)
        requires
            *old(samp_idx) + old(self)@.len() <= usize::MAX,
        ensures
            final(self).slot() == old(self).slot(),
            final(self).layout() == old(self).layout(),
            final(self)@ == wave.run(*old(samp_idx) as int, old(self)@.len()),
            *final(samp_idx) == *old(samp_idx) + old(self)@.len(),
    {
        fill_buff(&mut self.buff, samp_idx, wave);
    }

    /// Refills the buffer with the next run of the signal and hands it to a
    /// new submission, which holds it until it has resolved.
    pub fn submit(self, samp_idx: &mut usize, wave: &Waveform) -> (r: Submission)
        requires
            *old(samp_idx) + self@.len() <= usize::MAX,
        ensures
            r.fresh(),
            r.xfer().slot() == self.slot(),
            r.xfer().layout() == self.layout(),
            r.xfer()@ == wave.run(*old(samp_idx) as int, self@.len()),
            *final(samp_idx) == *old(samp_idx) + self@.len(),
    {
        let mut xfer = self;
        xfer.fill(samp_idx, wave);
        Submission::new(xfer)
    }
}

} // verus!
