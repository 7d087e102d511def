use nusb::transfer::{ErrorKind, GenericError, ResponseBuffer, TransferHandle};
use nusb::{Completion, EndpointType, TransferError, TransferFuture};

#[test]
fn into_result_ok_keeps_data() {
    let c = Completion { data: vec![1u8, 2, 3], status: Ok(()) };
    assert_eq!(c.into_result(), Ok(vec![1u8, 2, 3]));
}

#[test]
fn into_result_error_drops_partial_data() {
    let c = Completion { data: vec![9u8; 10], status: Err(TransferError::Stall) };
    assert_eq!(c.into_result(), Err(TransferError::Stall));
}

#[test]
fn try_from_completion_vec() {
    let ok: Result<Vec<u8>, TransferError> =
        Vec::try_from(Completion { data: vec![5u8], status: Ok(()) });
    assert_eq!(ok, Ok(vec![5u8]));
    let err: Result<Vec<u8>, TransferError> =
        Vec::try_from(Completion { data: vec![5u8], status: Err(TransferError::Fault(7)) });
    assert_eq!(err, Err(TransferError::Fault(7)));
}

#[test]
fn try_from_completion_response_buffer() {
    let c = Completion { data: ResponseBuffer::from_vec(vec![0u8; 8], 3), status: Ok(()) };
    let r = ResponseBuffer::try_from(c).unwrap();
    assert_eq!(r.actual_length(), 3);
    let c = Completion {
        data: ResponseBuffer::from_vec(vec![0u8; 8], 3),
        status: Err(TransferError::Cancelled),
    };
    assert_eq!(ResponseBuffer::try_from(c).unwrap_err(), TransferError::Cancelled);
}

#[test]
fn error_kinds() {
    assert_eq!(TransferError::Cancelled.kind(), ErrorKind::Interrupted);
    assert_eq!(TransferError::Stall.kind(), ErrorKind::ConnectionReset);
    assert_eq!(TransferError::Disconnected.kind(), ErrorKind::ConnectionAborted);
    assert_eq!(TransferError::Fault(0).kind(), ErrorKind::Other);
    assert_eq!(TransferError::Fault(12345).kind(), ErrorKind::Other);
    assert_eq!(TransferError::Unknown.kind(), ErrorKind::Other);
}

#[test]
fn generic_error_keeps_cause() {
    let g = GenericError::from(TransferError::Fault(5));
    assert_eq!(g, GenericError { kind: ErrorKind::Other, cause: TransferError::Fault(5) });
    let g = GenericError::from(TransferError::Unknown);
    assert_eq!(g.kind, ErrorKind::Other);
    assert_eq!(g.cause, TransferError::Unknown);
    let g = GenericError::from(TransferError::Disconnected);
    assert_eq!(g.kind, ErrorKind::ConnectionAborted);
}

#[test]
fn error_messages() {
    assert_eq!(TransferError::Cancelled.message(), "transfer was cancelled");
    assert_eq!(TransferError::Stall.message(), "endpoint STALL condition");
    assert_eq!(TransferError::Disconnected.message(), "device disconnected");
    assert_eq!(TransferError::Unknown.message(), "unknown error");
    assert_eq!(
        TransferError::Fault(0).message(),
        "hardware fault or protocol violation (errno 0)"
    );
    assert_eq!(
        TransferError::Fault(110).message(),
        "hardware fault or protocol violation (errno 110)"
    );
    assert_eq!(
        TransferError::Fault(u32::MAX).message(),
        "hardware fault or protocol violation (errno 4294967295)"
    );
}

#[test]
fn endpoint_type_codes() {
    assert_eq!(EndpointType::Control.tag(), 0);
    assert_eq!(EndpointType::Isochronous.tag(), 1);
    assert_eq!(EndpointType::Bulk.tag(), 2);
    assert_eq!(EndpointType::Interrupt.tag(), 3);
    assert_eq!(EndpointType::from_attributes(0x02), EndpointType::Bulk);
    assert_eq!(EndpointType::from_attributes(0x83), EndpointType::Interrupt);
    assert_eq!(EndpointType::from_attributes(0x0d), EndpointType::Isochronous);
    assert_eq!(EndpointType::from_attributes(0x00), EndpointType::Control);
}

#[test]
fn bulk_write_of_64_bytes_completes() {
    let mut fut: TransferFuture<ResponseBuffer> = TransferFuture::new(TransferHandle::submitted());
    assert!(fut.is_pending());
    assert!(fut.poll().is_none());
    fut.notify(Completion { data: ResponseBuffer::from_vec(vec![0xa5u8; 64], 64), status: Ok(()) });
    let c = fut.poll().unwrap();
    assert_eq!(c.status, Ok(()));
    assert_eq!(c.data.actual_length(), 64);
    assert_eq!(c.data.into_vec(), vec![0xa5u8; 64]);
    assert!(fut.poll().is_none());
}

#[test]
fn dropping_awaiter_before_completion_cancels() {
    let fut: TransferFuture<Vec<u8>> = TransferFuture::new(TransferHandle::submitted());
    assert!(fut.cancel_on_drop());
}

#[test]
fn dropping_awaiter_after_completion_sends_nothing() {
    let mut fut: TransferFuture<Vec<u8>> = TransferFuture::new(TransferHandle::submitted());
    fut.notify(Completion { data: vec![1u8], status: Ok(()) });
    assert!(!fut.cancel_on_drop());
}

#[test]
fn cancel_on_completed_handle_is_no_op() {
    let mut h: TransferHandle<Vec<u8>> = TransferHandle::submitted();
    h.notify(Completion { data: vec![1u8, 2], status: Ok(()) });
    assert!(!h.cancel());
    assert!(!h.cancel());
    assert!(h.is_complete());
    let c = h.take_completion().unwrap();
    assert_eq!(c.status, Ok(()));
    assert_eq!(c.data, vec![1u8, 2]);
    assert!(!h.cancel());
    assert!(h.take_completion().is_none());
}

#[test]
fn cancel_pending_handle_forwards_once() {
    let mut h: TransferHandle<Vec<u8>> = TransferHandle::submitted();
    assert!(h.cancel());
    assert!(!h.cancel());
    assert!(h.is_pending());
    h.notify(Completion { data: vec![7u8], status: Err(TransferError::Cancelled) });
    let c = h.take_completion().unwrap();
    assert_eq!(c.status, Err(TransferError::Cancelled));
    assert_eq!(c.data, vec![7u8]);
}
