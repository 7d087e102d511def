//! Transfer-related types.
//!
//! A single transfer is awaited through a [`TransferFuture`]; several
//! transfers on one endpoint are pipelined with a [`Queue`].

use vstd::prelude::*;
use vstd::string::StringExecFns;
use internal::cancel_forwarded;

pub mod buffer;
pub mod control;
pub mod internal;
pub mod queue;

pub use buffer::{RequestBuffer, ResponseBuffer};
pub use control::{Control, ControlIn, ControlOut, ControlType, Direction, Recipient, SetupPacket};
pub use internal::{TransferHandle, TransferState};
pub use queue::{Queue, SubmitOutcome};

verus! {

/// Endpoint type.
#[derive(Debug, Copy, Clone, PartialEq, Eq, Structural)]
pub enum EndpointType {
    /// Control endpoint.
    Control,
    /// Isochronous endpoint.
    Isochronous,
    /// Bulk endpoint.
    Bulk,
    /// Interrupt endpoint.
    Interrupt,
}

/// The two-bit transfer-type code of an endpoint's attributes.
pub open spec fn endpoint_tag(t: EndpointType) -> u8 {
    match t {
        EndpointType::Control => 0,
        EndpointType::Isochronous => 1,
        EndpointType::Bulk => 2,
        EndpointType::Interrupt => 3,
    }
}

impl EndpointType {
    /// The transfer-type code used in endpoint descriptors.
    pub fn tag(&self) -> (r: u8)
        ensures
            r == endpoint_tag(*self),
    {
        match self {
            EndpointType::Control => 0,
            EndpointType::Isochronous => 1,
            EndpointType::Bulk => 2,
            EndpointType::Interrupt => 3,
        }
    }

    /// The endpoint type named by the low two bits of an endpoint
    /// descriptor's `bmAttributes`.
    pub fn from_attributes(attributes: u8) -> (r: EndpointType)
        ensures
            endpoint_tag(r) == attributes % 4,
    {
        let code: u8 = attributes % 4;
        if code == 0 {
            EndpointType::Control
        } else if code == 1 {
            EndpointType::Isochronous
        } else if code == 2 {
            EndpointType::Bulk
        } else {
            EndpointType::Interrupt
        }
    }
}

/// Transfer error.
#[derive(Debug, Copy, Clone, PartialEq, Eq, Structural)]
pub enum TransferError {
    /// Transfer was cancelled.
    Cancelled,
    /// Endpoint in a STALL condition.
    ///
    /// For bulk and interrupt endpoints the condition is cleared with a
    /// clear-halt request; for control requests it clears when the next
    /// request is submitted.
    Stall,
    /// Device disconnected.
    Disconnected,
    /// Hardware issue or protocol violation, with the backend's code.
    Fault(u32),
    /// Unknown or OS-specific error.
    Unknown,
}

/// The character of a decimal digit.
pub open spec fn digit_char(d: nat) -> char {
    if d == 0 {
        '0'
    } else if d == 1 {
        '1'
    } else if d == 2 {
        '2'
    } else if d == 3 {
        '3'
    } else if d == 4 {
        '4'
    } else if d == 5 {
        '5'
    } else if d == 6 {
        '6'
    } else if d == 7 {
        '7'
    } else if d == 8 {
        '8'
    } else {
        '9'
    }
}

/// `n` written in decimal, without leading zeros.
pub open spec fn decimal(n: nat) -> Seq<char>
    decreases n,
{
    if n < 10 {
        seq![digit_char(n)]
    } else {
        decimal(n / 10).push(digit_char(n % 10))
    }
}

/// The text that describes each transfer error.
pub open spec fn error_message(e: TransferError) -> Seq<char> {
    match e {
        TransferError::Cancelled => "transfer was cancelled"@,
        TransferError::Stall => "endpoint STALL condition"@,
        TransferError::Disconnected => "device disconnected"@,
        TransferError::Fault(code) => "hardware fault or protocol violation (errno "@ + decimal(
            code as nat,
        ) + ")"@,
        TransferError::Unknown => "unknown error"@,
    }
}

fn push_digit(s: &mut String, d: u32)
    requires
        d < 10,
    ensures
        final(s)@ == old(s)@.push(digit_char(d as nat)),
{
    let t: &str = if d == 0 {
        "0"
    } else if d == 1 {
        "1"
    } else if d == 2 {
        "2"
    } else if d == 3 {
        "3"
    } else if d == 4 {
        "4"
    } else if d == 5 {
        "5"
    } else if d == 6 {
        "6"
    } else if d == 7 {
        "7"
    } else if d == 8 {
        "8"
    } else {
        "9"
    };
    proof {
        reveal_strlit("0");
        reveal_strlit("1");
        reveal_strlit("2");
        reveal_strlit("3");
        reveal_strlit("4");
        reveal_strlit("5");
        reveal_strlit("6");
        reveal_strlit("7");
        reveal_strlit("8");
        reveal_strlit("9");
    }
    assert(t@ =~= seq![digit_char(d as nat)]);
    s.append(t);
}

fn push_decimal(s: &mut String, n: u32)
    ensures
        final(s)@ == old(s)@ + decimal(n as nat),
    decreases n,
{
    if n >= 10 {
        push_decimal(s, n / 10);
    }
    push_digit(s, n % 10);
    assert(final(s)@ =~= old(s)@ + decimal(n as nat));
}

/// Generic I/O error classification that transfer errors map onto.
#[derive(Debug, Copy, Clone, PartialEq, Eq, Structural)]
pub enum ErrorKind {
    /// The operation was interrupted.
    Interrupted,
    /// The connection was reset by the remote side.
    ConnectionReset,
    /// The connection was aborted.
    ConnectionAborted,
    /// Any other error.
    Other,
}

/// The generic kind of each transfer error.
pub open spec fn kind_of(e: TransferError) -> ErrorKind {
    match e {
        TransferError::Cancelled => ErrorKind::Interrupted,
        TransferError::Stall => ErrorKind::ConnectionReset,
        TransferError::Disconnected => ErrorKind::ConnectionAborted,
        TransferError::Fault(_) => ErrorKind::Other,
        TransferError::Unknown => ErrorKind::Other,
    }
}

/// The generic error for a transfer error: its kind, with the error as cause.
pub open spec fn generic_of(e: TransferError) -> GenericError {
    GenericError { kind: kind_of(e), cause: e }
}

/// A transfer error seen through the generic I/O classification; the
/// original error is kept as the cause.
#[derive(Debug, Copy, Clone, PartialEq, Eq, Structural)]
pub struct GenericError {
    pub kind: ErrorKind,
    pub cause: TransferError,
}

impl TransferError {
    /// A description of the error, for display.
    pub fn message(&self) -> (r: String)
        ensures
            r@ == error_message(*self),
    {
        match self {
            TransferError::Cancelled => <String as StringExecFns>::from_str("transfer was cancelled"),
            TransferError::Stall => <String as StringExecFns>::from_str("endpoint STALL condition"),
            TransferError::Disconnected => <String as StringExecFns>::from_str("device disconnected"),
            TransferError::Fault(code) => {
                let mut s = <String as StringExecFns>::from_str(
                    "hardware fault or protocol violation (errno ",
                );
                push_decimal(&mut s, *code);
                s.append(")");
                s
            },
            TransferError::Unknown => <String as StringExecFns>::from_str("unknown error"),
        }
    }

    /// The generic I/O kind of this error.
    pub fn kind(&self) -> (r: ErrorKind)
        ensures
            r == kind_of(*self),
    {
        match self {
            TransferError::Cancelled => ErrorKind::Interrupted,
            TransferError::Stall => ErrorKind::ConnectionReset,
            TransferError::Disconnected => ErrorKind::ConnectionAborted,
            TransferError::Fault(_) => ErrorKind::Other,
            TransferError::Unknown => ErrorKind::Other,
        }
    }
}

impl From<TransferError> for GenericError {
    fn from(value: TransferError) -> (r: GenericError)
        ensures
            r == generic_of(value),
    {
        GenericError { kind: value.kind(), cause: value }
    }
}

impl vstd::std_specs::convert::FromSpecImpl<TransferError> for GenericError {
    open spec fn obeys_from_spec() -> bool {
        true
    }

    open spec fn from_spec(v: TransferError) -> GenericError {
        generic_of(v)
    }
}

/// Mapping transfer errors to generic kinds is total and keeps the cause, and
/// it is many-to-one: faults of every code and unknown errors share one kind,
/// while cancellation, stalls and disconnection each have a kind of their own.
pub proof fn lemma_error_mapping(e: TransferError, f: TransferError)
    ensures
        generic_of(e).cause == e,
        generic_of(e).kind == kind_of(e),
        kind_of(e) == kind_of(f) <==> (e == f || (kind_of(e) == ErrorKind::Other && kind_of(f)
            == ErrorKind::Other)),
        kind_of(e) == ErrorKind::Other <==> (e is Fault || e is Unknown),
{
}

/// Status and data returned on transfer completion.
///
/// A transfer can return partial data even on failure or cancellation, so
/// this holds both `data` and `status` rather than a `Result`. Use
/// [`into_result`][`Completion::into_result`] to ignore a partial transfer.
#[derive(Debug)]
#[must_use]
pub struct Completion<T> {
    /// Returned data or buffer to re-use.
    pub data: T,
    /// Indicates successful completion or error.
    pub status: Result<(), TransferError>,
}

/// The strict result a completion collapses into.
pub open spec fn completion_result<T>(c: Completion<T>) -> Result<T, TransferError> {
    match c.status {
        Ok(()) => Ok(c.data),
        Err(e) => Err(e),
    }
}

impl<T> Completion<T> {
    /// Ignore any partial completion, turning `self` into a `Result` holding
    /// either the buffer of a successful transfer or the `TransferError`.
    pub fn into_result(self) -> (r: Result<T, TransferError>)
        ensures
            r == completion_result(self),
            r is Ok <==> self.status is Ok,
            r is Ok ==> r->Ok_0 == self.data,
            self.status is Err ==> r == Err::<T, TransferError>(self.status->Err_0),
    {
        match self.status {
            Ok(()) => Ok(self.data),
            Err(e) => Err(e),
        }
    }
}

impl vstd::std_specs::convert::TryFromSpecImpl<Completion<Vec<u8>>> for Vec<u8> {
    open spec fn obeys_try_from_spec() -> bool {
        true
    }

    open spec fn try_from_spec(c: Completion<Vec<u8>>) -> Result<Vec<u8>, TransferError> {
        completion_result(c)
    }
}

impl TryFrom<Completion<Vec<u8>>> for Vec<u8> {
    type Error = TransferError;

    fn try_from(c: Completion<Vec<u8>>) -> (r: Result<Vec<u8>, TransferError>)
        ensures
            r == completion_result(c),
    {
        c.into_result()
    }
}

impl vstd::std_specs::convert::TryFromSpecImpl<Completion<ResponseBuffer>> for ResponseBuffer {
    open spec fn obeys_try_from_spec() -> bool {
        true
    }

    open spec fn try_from_spec(c: Completion<ResponseBuffer>) -> Result<ResponseBuffer, TransferError> {
        completion_result(c)
    }
}

impl TryFrom<Completion<ResponseBuffer>> for ResponseBuffer {
    type Error = TransferError;

    fn try_from(c: Completion<ResponseBuffer>) -> (r: Result<ResponseBuffer, TransferError>)
        ensures
            r == completion_result(c),
    {
        c.into_result()
    }
}

/// Awaits the completion of one transfer.
///
/// Abandoning the awaiter with [`cancel_on_drop`][`TransferFuture::cancel_on_drop`]
/// before completion cancels the transfer, and the buffer and any partially
/// transferred data are discarded. This awaiter is therefore not safe to race
/// against a timeout when partial data matters: use a [`Queue`][`queue::Queue`],
/// which hands every completion back.
#[derive(Debug)]
pub struct TransferFuture<T> {
    transfer: TransferHandle<T>,
}

impl<T> View for TransferFuture<T> {
    type V = TransferState<T>;

    closed spec fn view(&self) -> TransferState<T> {
        self.transfer@
    }
}

impl<T> TransferFuture<T> {
    /// An awaiter for the transfer behind `transfer`.
    pub fn new(transfer: TransferHandle<T>) -> (r: TransferFuture<T>)
        ensures
            r@ == transfer@,
    {
        TransferFuture { transfer }
    }

    /// Record the completion the backend delivered for this transfer.
    pub fn notify(&mut self, completion: Completion<T>)
        requires
            (old(self)@ is Pending),
        ensures
            final(self)@ == TransferState::Completed(completion),
    {
        self.transfer.notify(completion);
    }

    /// Whether the transfer is still waiting for its completion.
    pub fn is_pending(&self) -> (r: bool)
        ensures
            r == (self@ is Pending),
    {
        self.transfer.is_pending()
    }

    /// One poll step: the completion once it has been delivered, `None`
    /// while the transfer is in flight or after the completion was taken.
    pub fn poll(&mut self) -> (r: Option<Completion<T>>)
        ensures
            old(self)@ is Completed ==> r == Some(old(self)@->Completed_0) && final(self)@
                == TransferState::<T>::Retrieved,
            !(old(self)@ is Completed) ==> r is None && final(self)@ == old(self)@,
    {
        self.transfer.take_completion()
    }

    /// Give up on the transfer. Whatever was delivered is discarded; a
    /// transfer still in flight is cancelled, and the result says whether a
    /// cancellation must be sent to the backend.
    pub fn cancel_on_drop(self) -> (forward: bool)
        ensures
            forward == cancel_forwarded(self@),
            forward <==> (self@ is Pending && !self@->cancel_requested),
    {
        let mut transfer = self.transfer;
        transfer.cancel()
    }
}

} // verus!
