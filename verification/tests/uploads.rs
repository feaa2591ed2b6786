use zk_nft::upload::{init_blob_upload, log_blob, upload_blob, MAX_CPI_BYTES,
    UPLOADED_BLOB_BUFFER_START};

#[test]
fn init_writes_the_header_and_nothing_else() {
    let mut buffer = vec![0xEEu8; 100];
    let authority = [9u8; 32];
    init_blob_upload(&mut buffer, &authority, 60);
    let expected_tag =
        anchor_lang::solana_program::hash::hashv(&[b"account:UploadedBlob"]).to_bytes();
    assert_eq!(&buffer[0..8], &expected_tag[0..8]);
    assert_eq!(&buffer[8..40], &authority);
    assert!(buffer[40..].iter().all(|&b| b == 0xEE));
    assert_eq!(buffer.len(), 100);
}

#[test]
fn upload_writes_at_the_indexed_offset() {
    let mut buffer = vec![0u8; 100];
    let bytes = vec![1u8, 2, 3];
    upload_blob(&mut buffer, 5, &bytes);
    assert_eq!(&buffer[45..48], &[1, 2, 3]);
    assert!(buffer[..45].iter().all(|&b| b == 0));
    assert!(buffer[48..].iter().all(|&b| b == 0));
}

#[test]
fn log_splits_the_payload_into_bounded_windows() {
    let payload_len = MAX_CPI_BYTES + 2;
    let mut buffer = vec![0u8; UPLOADED_BLOB_BUFFER_START + payload_len];
    for (i, b) in buffer.iter_mut().enumerate().skip(UPLOADED_BLOB_BUFFER_START) {
        *b = (i % 251) as u8;
    }
    let windows = log_blob(&buffer);
    assert_eq!(windows.len(), 2);
    assert_eq!(windows[0].len(), MAX_CPI_BYTES);
    assert_eq!(windows[1].len(), 2);
    let mut rebuilt = Vec::new();
    for w in &windows {
        rebuilt.extend_from_slice(w);
    }
    assert_eq!(rebuilt, buffer[UPLOADED_BLOB_BUFFER_START..].to_vec());
}

#[test]
fn log_of_an_empty_payload_streams_nothing() {
    let buffer = vec![0u8; UPLOADED_BLOB_BUFFER_START];
    assert!(log_blob(&buffer).is_empty());
    let short = vec![0u8; 3];
    assert!(log_blob(&short).is_empty());
}
