use rust_media_server::handshake::{
    build_server_handshake, create_server_handshake, HandshakeError, SERVER_REPLY_SIZE,
};

#[test]
fn test_handshake_creation() {
    let client_handshake = vec![3u8; 1537];
    let server_handshake = create_server_handshake(&client_handshake).unwrap();

    assert_eq!(server_handshake.len(), 3073);
    assert_eq!(server_handshake[0], 3);
}

#[test]
fn handshake_reply_echoes_client_block() {
    let client: Vec<u8> = (0..1537u32).map(|i| (i % 251) as u8).collect();
    let reply = build_server_handshake(&client, 0x0102_0304);
    assert_eq!(reply.len(), SERVER_REPLY_SIZE);
    assert_eq!(reply[0], 3);
    assert_eq!(&reply[1..5], &[1, 2, 3, 4]);
    assert_eq!(&reply[5..9], &[0, 0, 0, 0]);
    assert_eq!(&reply[9..1536], &client[9..1536]);
    assert_eq!(&reply[1536..], &client[..]);
}

#[test]
fn handshake_short_block_gets_zero_payload() {
    let client = vec![7u8; 10];
    let reply = build_server_handshake(&client, 0xffff_ffff);
    assert_eq!(reply.len(), 1536 + 10);
    assert_eq!(&reply[1..5], &[255, 255, 255, 255]);
    assert!(reply[9..1536].iter().all(|b| *b == 0));
    assert_eq!(&reply[1536..], &client[..]);
}

#[test]
fn handshake_carries_current_time() {
    let client = vec![3u8; 1537];
    let reply = create_server_handshake(&client).unwrap();
    let stamp = u32::from_be_bytes([reply[1], reply[2], reply[3], reply[4]]);
    assert!(stamp != 0);
    assert_eq!(&reply[1536..], &client[..]);
    assert_ne!(HandshakeError::ShortRead, HandshakeError::ClockBeforeEpoch);
}
