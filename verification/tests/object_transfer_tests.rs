//! Chunked object transfer: announcement, chunking, reassembly, and the
//! fatal violations.

use osp_core::object_transfer::{
    acknowledge_object, prepare_object, TransferError, TransferReceiver,
};
use osp_core::registry::DataTypeRegistry;
use osp_core::transfer::{TransferPacketGuestToHost, TransferPacketHostToGuest};

/// Scenario: a 10,000-byte object against an 8 MiB packet limit travels as
/// one chunk marked done, and the receiver reassembles exactly its bytes.
#[test]
fn test_transfer_round_trip() {
    let mut registry = DataTypeRegistry::new();
    registry.register(1, 555).unwrap();

    let bytes: Vec<u8> = (0..10_000u32).map(|i| (i % 251) as u8).collect();
    let (ident, chunks) = prepare_object(&registry, 1, &bytes).unwrap();

    let (data_id, data_len, data_chunks) = match ident {
        TransferPacketGuestToHost::IdentifyObject { data_id, data_len, data_chunks } => {
            (data_id, data_len, data_chunks)
        }
        _ => panic!("expected an object announcement"),
    };
    assert_eq!(data_id, 555);
    assert_eq!(data_len, 10_000);
    assert_eq!(data_chunks, 1);
    assert_eq!(chunks.len(), 1);

    let (ack, receiver) = acknowledge_object(&registry, data_id, data_len, data_chunks);
    assert!(matches!(
        ack,
        TransferPacketHostToGuest::AcknowledgeObject { can_send: true }
    ));
    let mut receiver = receiver.unwrap();

    let mut delivered: Option<Vec<u8>> = None;
    for chunk in chunks {
        let (data, done) = match chunk {
            TransferPacketGuestToHost::SendChunk { data, done } => (data, done),
            _ => panic!("expected a chunk"),
        };
        assert!(done);
        delivered = receiver.on_chunk(data, done).unwrap();
    }
    assert_eq!(delivered.unwrap(), bytes);
}

#[test]
fn test_transfer_multiple_chunks_done_only_on_last() {
    // a tiny receiver-side walk with several chunks of an announced split
    let mut receiver = TransferReceiver {
        data_id: 1,
        data_len: 7,
        data_chunks: 3,
        received: Vec::new(),
        chunks_seen: 0,
    };
    assert_eq!(receiver.on_chunk(vec![1, 2, 3], false), Ok(None));
    assert_eq!(receiver.on_chunk(vec![4, 5], false), Ok(None));
    let out = receiver.on_chunk(vec![6, 7], true).unwrap().unwrap();
    assert_eq!(out, vec![1, 2, 3, 4, 5, 6, 7]);
}

#[test]
fn test_transfer_early_done_is_fatal() {
    let mut receiver = TransferReceiver {
        data_id: 1,
        data_len: 7,
        data_chunks: 3,
        received: Vec::new(),
        chunks_seen: 0,
    };
    assert_eq!(
        receiver.on_chunk(vec![1, 2, 3], true),
        Err(TransferError::UnexpectedDone)
    );
}

#[test]
fn test_transfer_missing_done_is_fatal() {
    let mut receiver = TransferReceiver {
        data_id: 1,
        data_len: 3,
        data_chunks: 1,
        received: Vec::new(),
        chunks_seen: 0,
    };
    assert_eq!(
        receiver.on_chunk(vec![1, 2, 3], false),
        Err(TransferError::MissingDone)
    );
}

#[test]
fn test_transfer_length_mismatch_is_fatal() {
    // the chunks run past the announced length
    let mut receiver = TransferReceiver {
        data_id: 1,
        data_len: 4,
        data_chunks: 2,
        received: Vec::new(),
        chunks_seen: 0,
    };
    assert_eq!(receiver.on_chunk(vec![1, 2, 3], false), Ok(None));
    assert_eq!(
        receiver.on_chunk(vec![4, 5], true),
        Err(TransferError::LengthMismatch)
    );

    // the last chunk falls short of the announced length
    let mut receiver = TransferReceiver {
        data_id: 1,
        data_len: 9,
        data_chunks: 2,
        received: Vec::new(),
        chunks_seen: 0,
    };
    assert_eq!(receiver.on_chunk(vec![1, 2, 3], false), Ok(None));
    assert_eq!(
        receiver.on_chunk(vec![4, 5], true),
        Err(TransferError::LengthMismatch)
    );
}

#[test]
fn test_transfer_unregistered_type_not_announced() {
    let registry = DataTypeRegistry::new();
    let bytes: Vec<u8> = vec![1, 2, 3];
    assert_eq!(
        prepare_object(&registry, 1, &bytes).unwrap_err(),
        TransferError::UnknownType
    );
}

#[test]
fn test_transfer_inconsistent_announcement_not_accepted() {
    // zero chunks cannot deliver a nonzero number of bytes
    let mut registry = DataTypeRegistry::new();
    registry.register(1, 555).unwrap();
    let (ack, receiver) = acknowledge_object(&registry, 555, 10, 0);
    assert!(matches!(
        ack,
        TransferPacketHostToGuest::AcknowledgeObject { can_send: false }
    ));
    assert!(receiver.is_none());

    // an empty object announced with zero chunks is fine
    let (ack, receiver) = acknowledge_object(&registry, 555, 0, 0);
    assert!(matches!(
        ack,
        TransferPacketHostToGuest::AcknowledgeObject { can_send: true }
    ));
    assert!(receiver.is_some());
}

#[test]
fn test_transfer_unregistered_id_not_accepted() {
    let registry = DataTypeRegistry::new();
    let (ack, receiver) = acknowledge_object(&registry, 555, 10, 1);
    assert!(matches!(
        ack,
        TransferPacketHostToGuest::AcknowledgeObject { can_send: false }
    ));
    assert!(receiver.is_none());
}

#[test]
fn test_transfer_empty_object_has_no_chunks() {
    let mut registry = DataTypeRegistry::new();
    registry.register(1, 555).unwrap();
    let bytes: Vec<u8> = Vec::new();
    let (ident, chunks) = prepare_object(&registry, 1, &bytes).unwrap();
    assert!(matches!(
        ident,
        TransferPacketGuestToHost::IdentifyObject { data_len: 0, data_chunks: 0, .. }
    ));
    assert!(chunks.is_empty());
}
