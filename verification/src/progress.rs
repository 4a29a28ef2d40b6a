//! Counting the bytes of one chunk upload while its body streams in, and
//! deciding when a progress event is due.

use crate::chunk::ChunkTicket;
use crate::types::{TransferProgress, TransferProgressView};
use vstd::prelude::*;

verus! {

/// A progress event is due once this many bytes have arrived since the last
/// one.
pub const PROGRESS_BYTES: u64 = 65536;

/// A progress event is due once this many milliseconds have passed since
/// the last one.
pub const PROGRESS_MILLIS: i64 = 250;

/// The speed at which `bytes` bytes arrived in `millis` milliseconds, in
/// bytes per second: 0 where no time has passed, and capped at what a
/// `u64` holds.
pub open spec fn speed_bps(bytes: u64, millis: int) -> u64 {
    if millis <= 0 {
        0
    } else if bytes * 1000 / millis > u64::MAX {
        u64::MAX
    } else {
        (bytes * 1000 / millis) as u64
    }
}

/// Computes the speed at which `bytes` bytes arrived between the times
/// `from` and `to`, both in milliseconds.
pub fn compute_speed(bytes: u64, from: i64, to: i64) -> (r: u64)
    ensures
        r == speed_bps(bytes, to - from),
{
    let millis: i128 = to as i128 - from as i128;
    if millis <= 0 {
        return 0;
    }
    let scaled: u128 = bytes as u128 * 1000;
    let per_second: u128 = scaled / (millis as u128);
    if per_second > u64::MAX as u128 {
        u64::MAX
    } else {
        per_second as u64
    }
}

/// Model of a [`ChunkReceiver`].
pub struct ChunkReceiverView {
    pub transfer_id: Seq<char>,
    pub file_name: Seq<char>,
    pub size: u64,
    pub total_size: u64,
    pub base_bytes: u64,
    pub received: u64,
    pub window_bytes: u64,
    pub window_at: i64,
}

impl ChunkReceiverView {
    /// Whether the counts are consistent: no more bytes than declared have
    /// arrived, and the file fits into what is left of its transfer.
    pub open spec fn wf(self) -> bool {
        &&& self.received <= self.size
        &&& self.window_bytes <= self.received
        &&& self.base_bytes + self.size <= self.total_size
    }

    /// Whether a progress event is due after `received` bytes at the time
    /// `now`: enough bytes or enough time since the last one, or the file
    /// is complete.
    pub open spec fn due(self, received: u64, now: i64) -> bool {
        ||| received - self.window_bytes >= PROGRESS_BYTES
        ||| now - self.window_at >= PROGRESS_MILLIS
        ||| received == self.size
    }

    /// The progress event after `received` bytes at the time `now`.
    pub open spec fn progress(self, received: u64, now: i64) -> TransferProgressView {
        TransferProgressView {
            transfer_id: self.transfer_id,
            current_file: Some(self.file_name),
            bytes_transferred: (self.base_bytes + received) as u64,
            total_bytes: self.total_size,
            speed_bps: speed_bps((received - self.window_bytes) as u64, now - self.window_at),
        }
    }

    /// What a block of `len` bytes at the time `now` leads to.
    pub open spec fn step(self, len: u64, now: i64) -> DataStepView {
        if self.received + len > self.size {
            DataStepView::TooLarge
        } else if self.due((self.received + len) as u64, now) {
            DataStepView::Progress(self.progress((self.received + len) as u64, now))
        } else {
            DataStepView::Continue
        }
    }

    /// The receiver after a block of `len` bytes at the time `now`.
    pub open spec fn after(self, len: u64, now: i64) -> ChunkReceiverView {
        if self.received + len > self.size {
            self
        } else if self.due((self.received + len) as u64, now) {
            ChunkReceiverView {
                received: (self.received + len) as u64,
                window_bytes: (self.received + len) as u64,
                window_at: now,
                ..self
            }
        } else {
            ChunkReceiverView { received: (self.received + len) as u64, ..self }
        }
    }
}

/// Model of a [`DataStep`].
pub enum DataStepView {
    Continue,
    Progress(TransferProgressView),
    TooLarge,
}

/// What to do after a block of the body was written.
#[derive(Debug)]
pub enum DataStep {
    /// Go on reading.
    Continue,
    /// Emit this progress event, then go on reading.
    Progress(TransferProgress),
    /// More bytes arrived than were declared: stop, and refuse the upload
    /// with status 413.
    TooLarge,
}

impl View for DataStep {
    type V = DataStepView;

    open spec fn view(&self) -> DataStepView {
        match self {
            DataStep::Continue => DataStepView::Continue,
            DataStep::Progress(p) => DataStepView::Progress(p@),
            DataStep::TooLarge => DataStepView::TooLarge,
        }
    }
}

/// The byte counter of one chunk upload.
pub struct ChunkReceiver {
    transfer_id: String,
    file_name: String,
    size: u64,
    total_size: u64,
    base_bytes: u64,
    received: u64,
    window_bytes: u64,
    window_at: i64,
}

impl View for ChunkReceiver {
    type V = ChunkReceiverView;

    closed spec fn view(&self) -> ChunkReceiverView {
        ChunkReceiverView {
            transfer_id: self.transfer_id@,
            file_name: self.file_name@,
            size: self.size,
            total_size: self.total_size,
            base_bytes: self.base_bytes,
            received: self.received,
            window_bytes: self.window_bytes,
            window_at: self.window_at,
        }
    }
}

impl ChunkReceiver {
    /// The counter for the upload under `ticket`, which starts at the time
    /// `now`.
    pub fn new(ticket: &ChunkTicket, now: i64) -> (r: Self)
        requires
            ticket@.wf(),
        ensures
            r@.wf(),
            r@ == (ChunkReceiverView {
                transfer_id: ticket@.transfer_id,
                file_name: ticket@.file_name,
                size: ticket@.size,
                total_size: ticket@.total_size,
                base_bytes: ticket@.base_bytes,
                received: 0,
                window_bytes: 0,
                window_at: now,
            }),
    {
        ChunkReceiver {
            transfer_id: ticket.transfer_id.clone(),
            file_name: ticket.file_name.clone(),
            size: ticket.size,
            total_size: ticket.total_size,
            base_bytes: ticket.base_bytes,
            received: 0,
            window_bytes: 0,
            window_at: now,
        }
    }

    /// The number of bytes that have arrived.
    pub fn received(&self) -> (r: u64)
        ensures
            r == self@.received,
    {
        self.received
    }

    /// Counts a block of `len` bytes that arrived at the time `now`.
    pub fn on_data(&mut self, len: u64, now: i64) -> (r: DataStep)
        requires
            old(self)@.wf(),
        ensures
            final(self)@.wf(),
            final(self)@ == old(self)@.after(len, now),
            r@ == old(self)@.step(len, now),
            r@ matches DataStepView::Progress(p) ==> p.bytes_transferred <= p.total_bytes,
    {
        if len > self.size - self.received {
            return DataStep::TooLarge;
        }
        let received: u64 = self.received + len;
        self.received = received;
        let elapsed: i128 = now as i128 - self.window_at as i128;
        if received - self.window_bytes >= PROGRESS_BYTES || elapsed >= PROGRESS_MILLIS as i128
            || received == self.size {
            let progress = TransferProgress {
                transfer_id: self.transfer_id.clone(),
                current_file: Some(self.file_name.clone()),
                bytes_transferred: self.base_bytes + received,
                total_bytes: self.total_size,
                speed_bps: compute_speed(received - self.window_bytes, self.window_at, now),
            };
            self.window_bytes = received;
            self.window_at = now;
            DataStep::Progress(progress)
        } else {
            DataStep::Continue
        }
    }
}

} // verus!
