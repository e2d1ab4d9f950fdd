//! Framing of messages on a data connection, and the retry rules of sending
//! and reading them. Each message is a 4-byte little-endian length followed
//! by that many bytes.
use crate::endian::le_u32;
use crate::endian::push_u32;
use crate::endian::read_u32;
use crate::endian::u32_le;
use vstd::prelude::*;
use vstd::slice::slice_to_vec;

verus! {

/// How many times a transfer tries again after the connection would block.
pub const PACKET_TRY_TIMES: u32 = 5;

/// The framed form of a message.
pub open spec fn framed(payload: Seq<u8>) -> Seq<u8> {
    u32_le(payload.len() as u32) + payload
}

/// Prepends the 4-byte length of `payload`.
pub fn frame(payload: &Vec<u8>) -> (r: Vec<u8>)
    requires
        payload@.len() <= u32::MAX,
    ensures
        r@ == framed(payload@),
{
    let mut r: Vec<u8> = Vec::new();
    push_u32(&mut r, payload.len() as u32);
    let mut body = slice_to_vec(payload.as_slice());
    r.append(&mut body);
    r
}

#[derive(Clone, Copy, Debug, PartialEq, Eq, Structural)]
pub enum FrameError {
    /// The length prefix announces an empty message.
    Empty,
    /// The length prefix announces more than the reader accepts.
    TooLarge,
}

/// The length that a 4-byte prefix announces, if the reader takes a message
/// of that size: not empty, and at most `max_size` bytes.
pub fn frame_length(header: &Vec<u8>, max_size: u32) -> (r: Result<u32, FrameError>)
    requires
        header@.len() == 4,
    ensures
        le_u32(header@) == 0 ==> r == Err::<u32, _>(FrameError::Empty),
        le_u32(header@) > max_size && le_u32(header@) != 0 ==> r == Err::<u32, _>(
            FrameError::TooLarge,
        ),
        0 < le_u32(header@) <= max_size ==> r == Ok::<_, FrameError>(le_u32(header@)),
{
    let n = read_u32(header, 0);
    assert(header@.subrange(0, 4) =~= header@);
    if n == 0 {
        Err(FrameError::Empty)
    } else if n > max_size {
        Err(FrameError::TooLarge)
    } else {
        Ok(n)
    }
}

/// What a transfer does next.
#[derive(Clone, Copy, Debug, PartialEq, Eq, Structural)]
pub enum TransferStep {
    /// Move more bytes; `done` bytes are through so far.
    Continue { done: usize },
    /// Every byte is through.
    Complete,
    /// Wait briefly and try the same bytes again.
    Retry,
    /// The transfer failed.
    Fail,
}

/// The progress of moving `total` bytes through a connection, in writes or
/// reads that may each move only part of them.
pub struct Transfer {
    pub done: usize,
    pub total: usize,
    pub tries_left: u32,
}

impl Transfer {
    pub open spec fn wf(&self) -> bool {
        self.done <= self.total
    }

    pub fn new(total: usize) -> (r: Transfer)
        ensures
            r == (Transfer { done: 0, total, tries_left: PACKET_TRY_TIMES }),
            r.wf(),
    {
        Transfer { done: 0, total, tries_left: PACKET_TRY_TIMES }
    }

    /// `n` more bytes went through. The progress reported is the cumulative
    /// count.
    pub fn on_moved(&mut self, n: usize) -> (r: TransferStep)
        requires
            old(self).wf(),
            n <= old(self).total - old(self).done,
        ensures
            final(self).wf(),
            final(self).done == old(self).done + n,
            final(self).total == old(self).total,
            final(self).tries_left == old(self).tries_left,
            final(self).done == final(self).total ==> r == TransferStep::Complete,
            final(self).done < final(self).total ==> r == (TransferStep::Continue {
                done: final(self).done,
            }),
    {
        self.done = self.done + n;
        if self.done == self.total {
            TransferStep::Complete
        } else {
            TransferStep::Continue { done: self.done }
        }
    }

    /// The connection would have blocked: try again while tries are left.
    pub fn on_would_block(&mut self) -> (r: TransferStep)
        requires
            old(self).wf(),
        ensures
            final(self).wf(),
            final(self).done == old(self).done,
            final(self).total == old(self).total,
            old(self).tries_left == 0 ==> r == TransferStep::Fail && final(self).tries_left == 0,
            old(self).tries_left > 0 ==> r == TransferStep::Retry && final(self).tries_left
                == old(self).tries_left - 1,
    {
        if self.tries_left == 0 {
            TransferStep::Fail
        } else {
            self.tries_left = self.tries_left - 1;
            TransferStep::Retry
        }
    }

    /// Any other failure ends the transfer.
    pub fn on_error(&self) -> (r: TransferStep)
        ensures
            r == TransferStep::Fail,
    {
        TransferStep::Fail
    }

    /// The connection was closed before every byte went through.
    pub fn on_closed(&self) -> (r: TransferStep)
        requires
            self.wf(),
        ensures
            self.done == self.total ==> r == TransferStep::Complete,
            self.done < self.total ==> r == TransferStep::Fail,
    {
        if self.done == self.total {
            TransferStep::Complete
        } else {
            TransferStep::Fail
        }
    }
}

} // verus!
