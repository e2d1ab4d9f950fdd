//! The sender's side of a file transfer, once the recipient has answered the
//! offer: when to connect, where to seek, what to send, when to give up, and
//! what to tell the host.
use crate::packet::data_packet::data_packet_bytes;
use crate::packet::file_part_packet::file_part_bytes;
use crate::packet::file_part_packet::FilePartModel;
use crate::packet::file_part_packet::FilePartPacket;
use crate::packet::file_receive_response_packet::FileReceiveResponsePacket;
use crate::packet::file_sending_packet::is_terminal;
use crate::packet::file_sending_packet::FileSendingPacket;
use crate::packet::file_sending_packet::FileSendingStatus;
use crate::packet::magic_numbers::magic_value;
use crate::packet::magic_numbers::MagicNumbers;
use crate::service::data_service::DataService;
use crate::service::transport::framed;
use vstd::prelude::*;

verus! {

/// How many sessions a transfer opens at most, as the data service uses it.
pub const DATA_SESSION_RECONNECT_TRIES: u32 = 3;

/// How many chunks go out between two progress reports.
pub const PROGRESS_REPORT_INTERVAL: u32 = 100;

/// The size of the chunks a file is read in.
pub const BUFFER_SIZE: usize = 8 * 1024 * 1024;

/// What happened since the last step.
#[derive(Clone, Copy, Debug, PartialEq, Eq, Structural)]
pub enum SendEvent {
    /// A connection to the recipient is open.
    SessionOpened,
    /// No connection could be made.
    ConnectFailed,
    /// A chunk of this many bytes was read from the file; zero at its end.
    ChunkRead(u64),
    /// The chunk last read went out whole.
    ChunkSent,
    /// The connection broke.
    TransportFailed,
    /// The file could not be opened, sought or read.
    FileFailed,
}

/// What the caller does next.
#[derive(Clone, Copy, Debug, PartialEq, Eq, Structural)]
pub enum SendAction {
    /// Open a connection to the recipient.
    Connect,
    /// Open the file and seek to this offset.
    Seek(u64),
    /// Read the next chunk.
    ReadChunk,
    /// Send the chunk just read, as the part at this offset.
    SendChunk(u64),
    /// Close everything; the transfer is over.
    Finish,
}

/// The state of one transfer.
#[derive(Clone, Copy, Debug, PartialEq, Eq, Structural)]
pub struct FileSendSession {
    pub file_id: u8,
    pub total: u64,
    /// Bytes of the file that went out in whole parts; a new session resumes
    /// here.
    pub sent: u64,
    /// The size of the chunk read and not yet sent.
    pub pending: u64,
    pub status: FileSendingStatus,
    pub failures: u32,
    pub chunks: u32,
    /// How many sessions may break before the transfer is given up.
    pub reconnect_tries: u32,
}

/// A report of `s` with the given status.
pub open spec fn report(s: FileSendSession, status: FileSendingStatus) -> FileSendingPacket {
    FileSendingPacket { file_id: s.file_id, progress: s.sent, total: s.total, status }
}

/// The transfer ends with `status`, which the host is told.
pub open spec fn end_with(s: FileSendSession, status: FileSendingStatus) -> (
    FileSendSession,
    SendAction,
    Option<FileSendingPacket>,
) {
    let t = FileSendSession { status, pending: 0, ..s };
    (t, SendAction::Finish, Some(report(t, status)))
}

/// One step of a transfer: the next state, what to do, and what to tell the
/// host, if anything.
pub open spec fn send_step(s: FileSendSession, e: SendEvent) -> (
    FileSendSession,
    SendAction,
    Option<FileSendingPacket>,
) {
    if is_terminal(s.status) {
        (s, SendAction::Finish, None)
    } else {
        match e {
            SendEvent::SessionOpened => (
                FileSendSession { status: FileSendingStatus::InProgress, pending: 0, ..s },
                SendAction::Seek(s.sent),
                None,
            ),
            SendEvent::ConnectFailed => end_with(s, FileSendingStatus::Error),
            SendEvent::FileFailed => end_with(s, FileSendingStatus::Error),
            SendEvent::ChunkRead(n) => if n == 0 {
                end_with(s, FileSendingStatus::Completed)
            } else if n > u64::MAX - s.sent {
                end_with(s, FileSendingStatus::Error)
            } else {
                (FileSendSession { pending: n, ..s }, SendAction::SendChunk(s.sent), None)
            },
            SendEvent::ChunkSent => {
                let t = FileSendSession {
                    sent: (s.sent + s.pending) as u64,
                    pending: 0,
                    chunks: if s.chunks + 1 >= PROGRESS_REPORT_INTERVAL {
                        0
                    } else {
                        (s.chunks + 1) as u32
                    },
                    ..s
                };
                if s.chunks + 1 >= PROGRESS_REPORT_INTERVAL {
                    (t, SendAction::ReadChunk, Some(report(t, FileSendingStatus::InProgress)))
                } else {
                    (t, SendAction::ReadChunk, None)
                }
            },
            SendEvent::TransportFailed => if s.failures + 1 >= s.reconnect_tries {
                end_with(
                    FileSendSession { failures: (s.failures + 1) as u32, ..s },
                    FileSendingStatus::CancelledByReceiver,
                )
            } else {
                (
                    FileSendSession { failures: (s.failures + 1) as u32, pending: 0, ..s },
                    SendAction::Connect,
                    None,
                )
            },
        }
    }
}

impl FileSendSession {
    /// The pending chunk fits after what was sent, and the counters are in
    /// range.
    pub open spec fn wf(&self) -> bool {
        &&& self.sent + self.pending <= u64::MAX
        &&& self.failures < self.reconnect_tries || is_terminal(self.status)
        &&& self.chunks < PROGRESS_REPORT_INTERVAL
    }

    /// Takes in the recipient's answer; at most `reconnect_tries` sessions
    /// will be opened. The host first hears that the file was requested;
    /// then that it was rejected, that the answer came over IPv6 or that no
    /// session may be opened (an error), or that it was accepted, in which
    /// case a connection is to be made.
    pub fn start(response: &FileReceiveResponsePacket, from_ipv4: bool, reconnect_tries: u32) -> (r: (
        FileSendSession,
        Vec<FileSendingPacket>,
        SendAction,
    ))
        ensures
            r.0.wf(),
            r.0.file_id == response@.file_id,
            r.0.total == response@.file_size,
            r.0.sent == 0,
            r.0.failures == 0,
            r.0.reconnect_tries == reconnect_tries,
            r.1@.len() == 2,
            r.1@[0] == report(r.0, FileSendingStatus::Requested),
            r.1@[1] == report(r.0, r.0.status),
            !from_ipv4 ==> r.0.status == FileSendingStatus::Error && r.2 == SendAction::Finish,
            from_ipv4 && !response@.accepted ==> r.0.status == FileSendingStatus::Rejected && r.2
                == SendAction::Finish,
            from_ipv4 && response@.accepted && reconnect_tries == 0 ==> r.0.status
                == FileSendingStatus::Error && r.2 == SendAction::Finish,
            from_ipv4 && response@.accepted && reconnect_tries > 0 ==> r.0.status
                == FileSendingStatus::Accepted && r.2 == SendAction::Connect,
    {
        let status = if !from_ipv4 {
            FileSendingStatus::Error
        } else if !response.accepted() {
            FileSendingStatus::Rejected
        } else if reconnect_tries == 0 {
            FileSendingStatus::Error
        } else {
            FileSendingStatus::Accepted
        };
        let s = FileSendSession {
            file_id: response.file_id(),
            total: response.file_size(),
            sent: 0,
            pending: 0,
            status,
            failures: 0,
            chunks: 0,
            reconnect_tries,
        };
        let mut notes: Vec<FileSendingPacket> = Vec::new();
        notes.push(FileSendingPacket::new(s.file_id, 0, s.total, FileSendingStatus::Requested));
        notes.push(FileSendingPacket::new(s.file_id, 0, s.total, status));
        let action = match status {
            FileSendingStatus::Accepted => SendAction::Connect,
            _ => SendAction::Finish,
        };
        (s, notes, action)
    }

    fn end(&mut self, status: FileSendingStatus) -> (r: (SendAction, Option<FileSendingPacket>))
        ensures
            (*final(self), r.0, r.1) == end_with(*old(self), status),
    {
        self.status = status;
        self.pending = 0;
        (
            SendAction::Finish,
            Some(FileSendingPacket::new(self.file_id, self.sent, self.total, status)),
        )
    }

    /// Advances the transfer by one event.
    pub fn step(&mut self, event: SendEvent) -> (r: (SendAction, Option<FileSendingPacket>))
        requires
            old(self).wf(),
        ensures
            final(self).wf(),
            (*final(self), r.0, r.1) == send_step(*old(self), event),
    {
        match self.status {
            FileSendingStatus::Rejected | FileSendingStatus::CancelledBySender
            | FileSendingStatus::CancelledByReceiver | FileSendingStatus::Completed
            | FileSendingStatus::Error => {
                return (SendAction::Finish, None);
            },
            _ => {},
        }
        match event {
            SendEvent::SessionOpened => {
                self.status = FileSendingStatus::InProgress;
                self.pending = 0;
                (SendAction::Seek(self.sent), None)
            },
            SendEvent::ConnectFailed => self.end(FileSendingStatus::Error),
            SendEvent::FileFailed => self.end(FileSendingStatus::Error),
            SendEvent::ChunkRead(n) => {
                if n == 0 {
                    self.end(FileSendingStatus::Completed)
                } else if n > u64::MAX - self.sent {
                    self.end(FileSendingStatus::Error)
                } else {
                    self.pending = n;
                    (SendAction::SendChunk(self.sent), None)
                }
            },
            SendEvent::ChunkSent => {
                self.sent = self.sent + self.pending;
                self.pending = 0;
                if self.chunks + 1 >= PROGRESS_REPORT_INTERVAL {
                    self.chunks = 0;
                    (
                        SendAction::ReadChunk,
                        Some(
                            FileSendingPacket::new(
                                self.file_id,
                                self.sent,
                                self.total,
                                FileSendingStatus::InProgress,
                            ),
                        ),
                    )
                } else {
                    self.chunks = self.chunks + 1;
                    (SendAction::ReadChunk, None)
                }
            },
            SendEvent::TransportFailed => {
                self.failures = self.failures + 1;
                if self.failures >= self.reconnect_tries {
                    self.end(FileSendingStatus::CancelledByReceiver)
                } else {
                    self.pending = 0;
                    (SendAction::Connect, None)
                }
            },
        }
    }
}

/// The framed data packet that carries `chunk` as the part of file `file_id`
/// at `offset`.
pub fn file_part_frame(file_id: u8, offset: u64, chunk: &Vec<u8>) -> (r: Vec<u8>)
    requires
        chunk@.len() + 25 <= u32::MAX,
    ensures
        r@ == framed(
            data_packet_bytes(
                magic_value(MagicNumbers::FilePart),
                file_part_bytes(
                    FilePartModel {
                        file_id,
                        offset,
                        length: chunk@.len() as u64,
                        data: chunk@,
                    },
                ),
            ),
        ),
{
    let part = FilePartPacket::new(
        file_id,
        offset,
        chunk.len() as u64,
        vstd::slice::slice_to_vec(chunk.as_slice()),
    );
    DataService::outgoing_frame(MagicNumbers::FilePart, &part.serialize())
}

/// Once a transfer has ended, no event changes it or reports anything.
pub proof fn lemma_terminal_absorbs(s: FileSendSession, e: SendEvent)
    requires
        is_terminal(s.status),
    ensures
        send_step(s, e) == (s, SendAction::Finish, Option::<FileSendingPacket>::None),
{
}

/// No step moves the resume offset back, and a broken connection keeps it:
/// the next session seeks to where the last whole part ended.
pub proof fn lemma_resume_offset(s: FileSendSession, e: SendEvent)
    requires
        s.wf(),
    ensures
        send_step(s, e).0.sent >= s.sent,
        e == SendEvent::TransportFailed ==> send_step(s, e).0.sent == s.sent,
        e == SendEvent::TransportFailed && send_step(s, e).1 == SendAction::Connect ==> send_step(
            send_step(s, e).0,
            SendEvent::SessionOpened,
        ).1 == SendAction::Seek(s.sent),
{
}

/// A transfer opens at most its allowed number of sessions: each broken one
/// counts, and the last allowed one ends the transfer as cancelled by the
/// receiver.
pub proof fn lemma_bounded_reconnects(s: FileSendSession)
    requires
        s.wf(),
        !is_terminal(s.status),
    ensures
        s.failures < s.reconnect_tries,
        send_step(s, SendEvent::TransportFailed).0.failures == s.failures + 1,
        s.failures + 1 == s.reconnect_tries ==> send_step(s, SendEvent::TransportFailed).0.status
            == FileSendingStatus::CancelledByReceiver && send_step(
            s,
            SendEvent::TransportFailed,
        ).1 == SendAction::Finish,
        s.failures + 1 < s.reconnect_tries ==> send_step(s, SendEvent::TransportFailed).1
            == SendAction::Connect,
{
}

/// On the way to success (sessions open, chunks read and sent) the host hears
/// only of progress, and of completion when the file ends; never of an error,
/// a rejection or a cancellation.
pub proof fn lemma_success_path_reports(s: FileSendSession, e: SendEvent)
    requires
        s.wf(),
        !is_terminal(s.status),
        e == SendEvent::SessionOpened || e == SendEvent::ChunkSent || (e matches SendEvent::ChunkRead(
            n,
        ) && n <= u64::MAX - s.sent),
    ensures
        send_step(s, e).2 matches Some(note) ==> note.status == FileSendingStatus::InProgress
            || note.status == FileSendingStatus::Completed,
        send_step(s, e).0.status == FileSendingStatus::InProgress || send_step(s, e).0.status
            == FileSendingStatus::Completed || send_step(s, e).0.status == s.status,
        e == SendEvent::ChunkRead(0) ==> send_step(s, e).0.status == FileSendingStatus::Completed,
{
}

} // verus!
