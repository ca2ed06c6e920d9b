use tool_executor::{AudioProcessor, VoiceGatewayServer};

#[test]
fn test_processor() {
    let mut processor = AudioProcessor::new(512);

    // Add samples
    let samples = vec![100i16; 1024];
    processor.add_samples(&samples);

    assert_eq!(processor.buffer_size(), 1024);

    // Get frames
    let frame1 = processor.next_frame();
    assert!(frame1.is_some());
    assert_eq!(frame1.unwrap().len(), 512);

    let frame2 = processor.next_frame();
    assert!(frame2.is_some());
    assert_eq!(frame2.unwrap().len(), 512);

    let frame3 = processor.next_frame();
    assert!(frame3.is_none());
}

#[test]
fn test_conversion() {
    let samples = vec![100i16, 200, 300, 400];
    let bytes = AudioProcessor::samples_to_bytes(&samples);
    let converted = AudioProcessor::bytes_to_samples(&bytes);

    assert_eq!(samples, converted);
}

#[test]
fn bytes_are_little_endian() {
    let bytes = AudioProcessor::samples_to_bytes(&[0x0102, -1, i16::MIN]);
    assert_eq!(&bytes[..], &[0x02, 0x01, 0xff, 0xff, 0x00, 0x80]);
    assert_eq!(AudioProcessor::bytes_to_samples(&[0x02, 0x01, 0x00, 0x80, 0x07]), vec![0x0102, i16::MIN]);
}

#[test]
fn frames_keep_order_and_clear_empties() {
    let mut p = AudioProcessor::new(2);
    p.add_samples(&[1, 2, 3]);
    assert_eq!(p.next_frame(), Some(vec![1, 2]));
    assert_eq!(p.buffer_size(), 1);
    assert_eq!(p.next_frame(), None);
    p.add_samples(&[4]);
    assert_eq!(p.next_frame(), Some(vec![3, 4]));
    p.add_samples(&[5, 6, 7]);
    p.clear();
    assert_eq!(p.buffer_size(), 0);
    let _server = VoiceGatewayServer::new();
}

#[test]
fn round_trip_of_edge_samples() {
    let samples = vec![0i16, 1, -1, 255, 256, -256, i16::MAX, i16::MIN];
    let bytes = AudioProcessor::samples_to_bytes(&samples);
    assert_eq!(bytes.len(), 16);
    assert_eq!(AudioProcessor::bytes_to_samples(&bytes), samples);
}
