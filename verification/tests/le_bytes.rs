use mango_v4::le_bytes::{read_u16, read_u32, read_u64, write_u16, write_u32, write_u64};

#[test]
fn reads_take_the_least_significant_byte_first() {
    let data = [0x01u8, 0x02, 0x03, 0x04, 0x05, 0x06, 0x07, 0x08, 0x09];
    assert_eq!(read_u16(&data, 0), 0x0201);
    assert_eq!(read_u16(&data, 1), 0x0302);
    assert_eq!(read_u16(&data, 7), 0x0908);
    assert_eq!(read_u32(&data, 0), 0x0403_0201);
    assert_eq!(read_u32(&data, 5), 0x0908_0706);
    assert_eq!(read_u64(&data, 0), 0x0807_0605_0403_0201);
    assert_eq!(read_u64(&data, 1), 0x0908_0706_0504_0302);
}

#[test]
fn reads_agree_with_from_le_bytes() {
    let data: Vec<u8> = (0..64u32).map(|i| (i * 37 + 11) as u8).collect();
    for at in 0..=56 {
        let mut eight = [0u8; 8];
        eight.copy_from_slice(&data[at..at + 8]);
        assert_eq!(read_u64(&data, at), u64::from_le_bytes(eight));
        let mut four = [0u8; 4];
        four.copy_from_slice(&data[at..at + 4]);
        assert_eq!(read_u32(&data, at), u32::from_le_bytes(four));
        let mut two = [0u8; 2];
        two.copy_from_slice(&data[at..at + 2]);
        assert_eq!(read_u16(&data, at), u16::from_le_bytes(two));
    }
    assert_eq!(read_u64(&[0xff; 8], 0), u64::MAX);
    assert_eq!(read_u32(&[0xff; 4], 0), u32::MAX);
    assert_eq!(read_u16(&[0xff; 2], 0), u16::MAX);
}

#[test]
fn writes_append_the_least_significant_byte_first() {
    let mut out = vec![0xaa];
    write_u64(&mut out, 0x0807_0605_0403_0201);
    assert_eq!(out, vec![0xaa, 1, 2, 3, 4, 5, 6, 7, 8]);
    write_u16(&mut out, 0x1234);
    assert_eq!(&out[9..], &[0x34, 0x12]);
    write_u32(&mut out, 0x0a0b_0c0d);
    assert_eq!(&out[11..], &[0x0d, 0x0c, 0x0b, 0x0a]);
    assert_eq!(out.len(), 15);
}

#[test]
fn writes_agree_with_to_le_bytes() {
    for x in [0u64, 1, 255, 256, 0xdead_beef, u64::MAX, 1 << 63, 0x0123_4567_89ab_cdef] {
        let mut eight = Vec::new();
        write_u64(&mut eight, x);
        assert_eq!(eight, x.to_le_bytes().to_vec());
        assert_eq!(read_u64(&eight, 0), x);
        let mut four = Vec::new();
        write_u32(&mut four, x as u32);
        assert_eq!(four, (x as u32).to_le_bytes().to_vec());
        assert_eq!(read_u32(&four, 0), x as u32);
        let mut two = Vec::new();
        write_u16(&mut two, x as u16);
        assert_eq!(two, (x as u16).to_le_bytes().to_vec());
        assert_eq!(read_u16(&two, 0), x as u16);
    }
}
