//! ARM semihosting console channel.
//!
//! The host is reached through a breakpoint instruction taking an operation
//! number and a pointer to its arguments; issuing it is left to the caller.
//! A [`Channel`] keeps the host file descriptor and decides which operation a
//! request turns into.

use vstd::prelude::*;

verus! {

/// Semihosting operations.
#[derive(Copy, Clone, Debug, PartialEq, Eq, Structural)]
pub enum SysOp {
    SysOpen,
    SysClose,
    SysWrite,
}

impl SysOp {
    /// The operation number: open is 1, close 2, write 5.
    pub open spec fn value(self) -> u32 {
        match self {
            SysOp::SysOpen => 0x01,
            SysOp::SysClose => 0x02,
            SysOp::SysWrite => 0x05,
        }
    }

    pub fn as_u32(self) -> (r: u32)
        ensures
            r == self.value(),
    {
        match self {
            SysOp::SysOpen => 0x01,
            SysOp::SysClose => 0x02,
            SysOp::SysWrite => 0x05,
        }
    }
}

/// Modes of the semihosting open operation, in the order of their numbers.
#[derive(Copy, Clone, Debug, PartialEq, Eq, Structural)]
pub enum OpenMode {
    Read,
    ReadBinary,
    ReadUpdate,
    ReadUpdateBinary,
    Write,
    WriteBinary,
    WriteUpdate,
    WriteUpdateBinary,
    Append,
    AppendBinary,
    AppendUpdate,
    AppendUpdateBinary,
}

impl OpenMode {
    /// The mode number passed to the open operation, 0 (`Read`) to 11 (`AppendUpdateBinary`).
    pub open spec fn value(self) -> u32 {
        match self {
            OpenMode::Read => 0,
            OpenMode::ReadBinary => 1,
            OpenMode::ReadUpdate => 2,
            OpenMode::ReadUpdateBinary => 3,
            OpenMode::Write => 4,
            OpenMode::WriteBinary => 5,
            OpenMode::WriteUpdate => 6,
            OpenMode::WriteUpdateBinary => 7,
            OpenMode::Append => 8,
            OpenMode::AppendBinary => 9,
            OpenMode::AppendUpdate => 10,
            OpenMode::AppendUpdateBinary => 11,
        }
    }

    pub fn as_u32(self) -> (r: u32)
        ensures
            r == self.value(),
            r == self as u32,
    {
        match self {
            OpenMode::Read => 0,
            OpenMode::ReadBinary => 1,
            OpenMode::ReadUpdate => 2,
            OpenMode::ReadUpdateBinary => 3,
            OpenMode::Write => 4,
            OpenMode::WriteBinary => 5,
            OpenMode::WriteUpdate => 6,
            OpenMode::WriteUpdateBinary => 7,
            OpenMode::Append => 8,
            OpenMode::AppendBinary => 9,
            OpenMode::AppendUpdate => 10,
            OpenMode::AppendUpdateBinary => 11,
        }
    }
}

/// A write to a closed channel.
#[derive(Copy, Clone, Debug, PartialEq, Eq, Structural)]
pub struct WriteError;

/// The write operation to issue: host file descriptor and byte count.
#[derive(Copy, Clone, Debug, PartialEq, Eq, Structural)]
pub struct WriteRequest {
    pub fd: i32,
    pub len: u32,
}

/// What a transmission of a buffer does: the write to issue, if the channel
/// is open, and the client to tell that the transmission is complete, if one
/// is registered.
#[derive(Copy, Clone, Debug, PartialEq, Eq, Structural)]
pub struct Transmission {
    pub write: Option<WriteRequest>,
    pub notify: Option<usize>,
}

/// What a [`Channel`] holds: the host file descriptor (negative when the
/// channel is closed) and the client of its transmissions.
#[derive(Copy, Clone, Debug, PartialEq, Eq, Structural)]
pub struct ChannelState {
    pub fd: i32,
    pub client: Option<usize>,
}

/// The channel after closing: marked closed (descriptor -1) if it was open,
/// unchanged if it was already closed.
pub open spec fn after_close(s: ChannelState) -> ChannelState {
    if s.fd >= 0 {
        ChannelState { fd: -1i32, ..s }
    } else {
        s
    }
}

/// The descriptor that closing the channel is to issue the close operation for.
pub open spec fn fd_to_close(s: ChannelState) -> Option<i32> {
    if s.fd >= 0 {
        Some(s.fd)
    } else {
        None
    }
}

/// The write that a string of `len` bytes turns into: an error on a closed channel.
pub open spec fn write_result(s: ChannelState, len: usize) -> Result<WriteRequest, WriteError> {
    if s.fd < 0 {
        Err(WriteError)
    } else {
        Ok(WriteRequest { fd: s.fd, len: len as u32 })
    }
}

pub struct Channel {
    fd: i32,
    client: Option<usize>,
}

impl View for Channel {
    type V = ChannelState;

    closed spec fn view(&self) -> ChannelState {
        ChannelState { fd: self.fd, client: self.client }
    }
}

impl Channel {
    /// A closed channel with no client.
    pub fn new() -> (r: Channel)
        ensures
            r@ == (ChannelState { fd: -1i32, client: None }),
    {
        Channel { fd: -1, client: None }
    }

    /// The host file descriptor; negative when the channel is closed.
    pub fn fd(&self) -> (r: i32)
        ensures
            r == self@.fd,
    {
        self.fd
    }

    /// Closes the channel if it is open: returns the descriptor that the
    /// close operation is to be issued for, and marks the channel closed
    /// (descriptor -1). A closed channel is left as it is.
    pub fn close(&mut self) -> (r: Option<i32>)
        ensures
            r == fd_to_close(old(self)@),
            final(self)@ == after_close(old(self)@),
    {
        let fd = self.fd;
        if fd >= 0 {
            self.fd = -1;
            Some(fd)
        } else {
            None
        }
    }

    /// Opens the channel: first closes it (the descriptor to close, if any, is
    /// returned first), then gives the arguments of the open operation for a
    /// name of `name_len` bytes in `mode`: the mode's number and the length.
    pub fn open(&mut self, name_len: usize, mode: OpenMode) -> (r: (Option<i32>, u32, u32))
        ensures
            r.0 == fd_to_close(old(self)@),
            final(self)@ == after_close(old(self)@),
            r.1 == mode.value(),
            r.2 == name_len as u32,
    {
        let closed = self.close();
        (closed, mode.as_u32(), name_len as u32)
    }

    /// Records the descriptor that the open operation returned, and returns it.
    pub fn opened(&mut self, fd: i32) -> (r: i32)
        ensures
            r == fd,
            final(self)@ == (ChannelState { fd: fd, ..old(self)@ }),
    {
        self.fd = fd;
        fd
    }

    /// The write of a string of `len` bytes: fails on a closed channel.
    pub fn write_str(&self, len: usize) -> (r: Result<WriteRequest, WriteError>)
        ensures
            r == write_result(self@, len),
    {
        if self.fd < 0 {
            Err(WriteError)
        } else {
            Ok(WriteRequest { fd: self.fd, len: len as u32 })
        }
    }

    /// Registers `client` to be told when a transmission completes.
    pub fn set_client(&mut self, client: usize)
        ensures
            final(self)@ == (ChannelState { client: Some(client), ..old(self)@ }),
    {
        self.client = Some(client);
    }

    /// The transmission of the first `tx_len` bytes of a buffer. An empty one
    /// does nothing, not even tell the client. Otherwise the bytes are written
    /// if the channel is open, and the client, if any, is told either way.
    pub fn transmit(&self, tx_len: usize) -> (r: Transmission)
        ensures
            tx_len == 0 ==> r == (Transmission { write: None, notify: None }),
            tx_len != 0 ==> r == (Transmission {
                write: if self@.fd >= 0 {
                    Some(WriteRequest { fd: self@.fd, len: tx_len as u32 })
                } else {
                    None
                },
                notify: self@.client,
            }),
    {
        if tx_len == 0 {
            return Transmission { write: None, notify: None };
        }
        let write = if self.fd >= 0 {
            Some(WriteRequest { fd: self.fd, len: tx_len as u32 })
        } else {
            None
        };
        Transmission { write: write, notify: self.client }
    }
}

/// A closed channel stays closed when closed again, and nothing is issued for it.
pub proof fn lemma_close_idempotent(s: ChannelState)
    ensures
        after_close(after_close(s)) == after_close(s),
        fd_to_close(after_close(s)) is None,
{
}

/// Once closed, a channel refuses every write until it is opened again.
pub proof fn lemma_write_after_close_fails(s: ChannelState, len: usize)
    ensures
        write_result(after_close(s), len) is Err,
{
}

/// After an open that gave descriptor `fd`, a write succeeds exactly when
/// `fd` is not negative, and then goes to `fd`.
pub proof fn lemma_write_after_open(s: ChannelState, fd: i32, len: usize)
    ensures
        write_result(ChannelState { fd: fd, ..after_close(s) }, len) == (if fd >= 0 {
            Ok::<WriteRequest, WriteError>(WriteRequest { fd: fd, len: len as u32 })
        } else {
            Err::<WriteRequest, WriteError>(WriteError)
        }),
{
}

/// The open modes in the order they are declared: Read, ReadBinary,
/// ReadUpdate, ReadUpdateBinary, Write, ..., AppendUpdateBinary.
pub open spec fn open_mode_order() -> Seq<OpenMode> {
    seq![
        OpenMode::Read,
        OpenMode::ReadBinary,
        OpenMode::ReadUpdate,
        OpenMode::ReadUpdateBinary,
        OpenMode::Write,
        OpenMode::WriteBinary,
        OpenMode::WriteUpdate,
        OpenMode::WriteUpdateBinary,
        OpenMode::Append,
        OpenMode::AppendBinary,
        OpenMode::AppendUpdate,
        OpenMode::AppendUpdateBinary,
    ]
}

/// The mode number that opening hands to the host is the mode's place in its
/// declaration (the discriminant the compiler gives it): `ReadBinary` is 1,
/// `Write` 4; every mode has its own number.
pub proof fn lemma_open_mode_number_is_position(i: int, mode: OpenMode)
    requires
        0 <= i < 12,
    ensures
        mode.value() == mode as u32,
        open_mode_order().len() == 12,
        open_mode_order()[i].value() == i,
        open_mode_order()[mode.value() as int] == mode,
{
}

/// The operation numbers: open is 1, close the number after it, write 5.
pub proof fn lemma_operation_numbers(op: SysOp)
    ensures
        (op == SysOp::SysOpen) <==> op.value() == 1,
        (op == SysOp::SysClose) <==> op.value() == SysOp::SysOpen.value() + 1,
        (op == SysOp::SysWrite) <==> op.value() == 5,
{
}

} // verus!
