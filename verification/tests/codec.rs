use apricot_client::codec::{
    read_bytes32, read_le, read_u128, read_u16, read_u64, read_u8, write_bytes, write_le,
};

#[test]
fn integers_are_read_least_significant_byte_first() {
    let data: Vec<u8> = (1..=40).collect();
    assert_eq!(read_u8(&data, 0), 1);
    assert_eq!(read_u8(&data, 39), 40);
    assert_eq!(read_u16(&data, 0), 0x0201);
    assert_eq!(read_u16(&data, 3), 0x0504);
    assert_eq!(read_u64(&data, 0), 0x0807_0605_0403_0201);
    assert_eq!(read_u64(&data, 32), u64::from_le_bytes([33, 34, 35, 36, 37, 38, 39, 40]));
    assert_eq!(read_u128(&data, 1), u128::from_le_bytes(data[1..17].try_into().unwrap()));
    assert_eq!(read_le(&data, 2, 3), 0x05_0403);
    assert_eq!(read_le(&data, 2, 0), 0);
    assert_eq!(read_le(&[0xff; 16], 0, 16), u128::MAX);
    assert_eq!(read_bytes32(&data, 8), <[u8; 32]>::try_from(&data[8..40]).unwrap());
}

#[test]
fn integers_are_written_least_significant_byte_first() {
    let mut out = vec![9];
    write_le(&mut out, 0x0102_0304, 4);
    assert_eq!(out, vec![9, 4, 3, 2, 1]);
    write_le(&mut out, 0x0102_0304, 2);
    assert_eq!(out, vec![9, 4, 3, 2, 1, 4, 3]);
    write_le(&mut out, 5, 0);
    assert_eq!(out.len(), 7);
    let mut wide = Vec::new();
    write_le(&mut wide, u128::MAX - 1, 16);
    assert_eq!(wide, (u128::MAX - 1).to_le_bytes().to_vec());
    write_bytes(&mut wide, &[1, 2, 3]);
    assert_eq!(wide.len(), 19);
    assert_eq!(wide[16..], [1, 2, 3]);
}

#[test]
fn written_integers_are_read_back() {
    for value in [0u64, 1, 0xff, 0x100, 0xdead_beef, u64::MAX] {
        let mut out = vec![0xaa, 0xbb];
        write_le(&mut out, value as u128, 8);
        out.push(0xcc);
        assert_eq!(read_u64(&out, 2), value);
        assert_eq!(out[2..10], value.to_le_bytes());
    }
}
