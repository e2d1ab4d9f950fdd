//! The sender's progress report on one file, handed to the host.
use vstd::prelude::*;

verus! {

/// Where a file transfer stands, seen from the sender.
#[derive(Clone, Copy, Debug, PartialEq, Eq, Structural)]
pub enum FileSendingStatus {
    Requested,
    Rejected,
    Accepted,
    InProgress,
    CancelledBySender,
    CancelledByReceiver,
    Completed,
    Error,
}

#[derive(Clone, Copy, Debug, PartialEq, Eq, Structural)]
pub enum FileSendingStatusError {
    InvalidStatus,
}

/// The code of each status, as the host sees it.
pub open spec fn status_code(s: FileSendingStatus) -> u8 {
    match s {
        FileSendingStatus::Requested => 1,
        FileSendingStatus::Rejected => 2,
        FileSendingStatus::Accepted => 3,
        FileSendingStatus::InProgress => 4,
        FileSendingStatus::CancelledBySender => 5,
        FileSendingStatus::CancelledByReceiver => 6,
        FileSendingStatus::Completed => 7,
        FileSendingStatus::Error => 8,
    }
}

/// A status after which nothing more happens to the transfer.
pub open spec fn is_terminal(s: FileSendingStatus) -> bool {
    match s {
        FileSendingStatus::Rejected | FileSendingStatus::CancelledBySender
        | FileSendingStatus::CancelledByReceiver | FileSendingStatus::Completed
        | FileSendingStatus::Error => true,
        _ => false,
    }
}

impl FileSendingStatus {
    pub fn to_u8(&self) -> (r: u8)
        ensures
            r == status_code(*self),
    {
        match self {
            FileSendingStatus::Requested => 1,
            FileSendingStatus::Rejected => 2,
            FileSendingStatus::Accepted => 3,
            FileSendingStatus::InProgress => 4,
            FileSendingStatus::CancelledBySender => 5,
            FileSendingStatus::CancelledByReceiver => 6,
            FileSendingStatus::Completed => 7,
            FileSendingStatus::Error => 8,
        }
    }

    pub fn from_u8(value: u8) -> (r: Result<FileSendingStatus, FileSendingStatusError>)
        ensures
            r is Ok <==> 1 <= value <= 8,
            r matches Ok(s) ==> status_code(s) == value,
            r matches Err(e) ==> e == FileSendingStatusError::InvalidStatus,
    {
        match value {
            1 => Ok(FileSendingStatus::Requested),
            2 => Ok(FileSendingStatus::Rejected),
            3 => Ok(FileSendingStatus::Accepted),
            4 => Ok(FileSendingStatus::InProgress),
            5 => Ok(FileSendingStatus::CancelledBySender),
            6 => Ok(FileSendingStatus::CancelledByReceiver),
            7 => Ok(FileSendingStatus::Completed),
            8 => Ok(FileSendingStatus::Error),
            _ => Err(FileSendingStatusError::InvalidStatus),
        }
    }
}

/// A report that `progress` of `total` bytes of file `file_id` are sent,
/// and where the transfer stands.
#[derive(Clone, Copy, Debug, PartialEq, Eq, Structural)]
pub struct FileSendingPacket {
    pub file_id: u8,
    pub progress: u64,
    pub total: u64,
    pub status: FileSendingStatus,
}

impl FileSendingPacket {
    pub fn new(file_id: u8, progress: u64, total: u64, status: FileSendingStatus) -> (r:
        FileSendingPacket)
        ensures
            r == (FileSendingPacket { file_id, progress, total, status }),
    {
        FileSendingPacket { file_id, progress, total, status }
    }

    pub fn file_id(&self) -> (r: u8)
        ensures
            r == self.file_id,
    {
        self.file_id
    }

    pub fn progress(&self) -> (r: u64)
        ensures
            r == self.progress,
    {
        self.progress
    }

    pub fn total(&self) -> (r: u64)
        ensures
            r == self.total,
    {
        self.total
    }

    pub fn status(&self) -> (r: &FileSendingStatus)
        ensures
            *r == self.status,
    {
        &self.status
    }

    pub fn set_status(&mut self, status: FileSendingStatus)
        ensures
            *final(self) == (FileSendingPacket { status, ..*old(self) }),
    {
        self.status = status;
    }
}

} // verus!
