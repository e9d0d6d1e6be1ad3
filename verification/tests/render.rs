use netcodes::{to_hex_string, IpFormatter};

#[test]
fn hex_example() {
    let bytes = [0x00u8, 0xFF, 0x1A];
    let mut buffer = [0u8; 8];
    let written = to_hex_string(&bytes, &mut buffer);
    assert_eq!(written, 8);
    assert_eq!(&buffer[..written], b"00:ff:1a");
}

#[test]
fn hex_empty_input_writes_nothing() {
    let mut buffer = [0xABu8; 4];
    let written = to_hex_string(&[], &mut buffer);
    assert_eq!(written, 0);
    assert_eq!(buffer, [0xABu8; 4]);
}

#[test]
fn hex_single_byte() {
    let mut buffer = [0u8; 2];
    let written = to_hex_string(&[0x5Eu8], &mut buffer);
    assert_eq!(written, 2);
    assert_eq!(&buffer[..], b"5e");
}

#[test]
fn hex_length_formula() {
    let bytes: Vec<u8> = (0u8..=255).collect();
    for n in 0..bytes.len() {
        let mut buffer = vec![0u8; 3 * n + 1];
        let written = to_hex_string(&bytes[..n], &mut buffer);
        let expected = if n == 0 { 0 } else { 3 * n - 1 };
        assert_eq!(written, expected);
    }
}

#[test]
fn hex_leaves_tail_of_buffer_unchanged() {
    let mut buffer = [0x77u8; 10];
    let written = to_hex_string(&[0x12u8, 0x34], &mut buffer);
    assert_eq!(written, 5);
    assert_eq!(&buffer[..5], b"12:34");
    assert_eq!(&buffer[5..], [0x77u8; 5]);
}

#[test]
fn hex_round_trip_all_byte_values() {
    let bytes: Vec<u8> = (0u8..=255).collect();
    let mut buffer = vec![0u8; 3 * bytes.len()];
    let written = to_hex_string(&bytes, &mut buffer);
    assert_eq!(written, 3 * bytes.len() - 1);
    let text = std::str::from_utf8(&buffer[..written]).unwrap();
    let decoded: Vec<u8> = text
        .split(':')
        .map(|pair| u8::from_str_radix(pair, 16).unwrap())
        .collect();
    assert_eq!(decoded, bytes);
    for pair in text.split(':') {
        assert_eq!(pair.len(), 2);
        assert!(pair.chars().all(|c| c.is_ascii_hexdigit() && !c.is_ascii_uppercase()));
    }
}

#[test]
fn ipv4_formats_private_address() {
    let ip = [192u8, 168, 0, 1];
    assert_eq!(IpFormatter(&ip).to_text(), "192.168.0.1");
}

#[test]
fn ipv4_formats_zero_address() {
    let ip = [0u8, 0, 0, 0];
    assert_eq!(IpFormatter(&ip).to_text(), "0.0.0.0");
}

#[test]
fn ipv4_formats_broadcast_address() {
    let ip = [255u8, 255, 255, 255];
    assert_eq!(IpFormatter(&ip).to_text(), "255.255.255.255");
}

#[test]
fn ipv4_no_leading_zeros() {
    let ip = [10u8, 7, 42, 100];
    assert_eq!(IpFormatter(&ip).to_text(), "10.7.42.100");
}
