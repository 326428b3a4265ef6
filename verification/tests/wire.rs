use win_ring0::ring0::OlsWriteMsrInput;
use win_ring0::wire::{put_le, read_le, WireRecord};

#[test]
fn put_le_writes_least_significant_byte_first() {
    let mut buf = Vec::new();
    put_le(&mut buf, 0x1122_3344, 4);
    assert_eq!(buf, vec![0x44, 0x33, 0x22, 0x11]);
}

#[test]
fn put_le_appends_to_what_is_there() {
    let mut buf = vec![0xaa, 0xbb];
    put_le(&mut buf, 0x0102, 2);
    assert_eq!(buf, vec![0xaa, 0xbb, 0x02, 0x01]);
}

#[test]
fn put_le_eight_bytes() {
    let mut buf = Vec::new();
    put_le(&mut buf, 0x0102_0304_0506_0708, 8);
    assert_eq!(buf, vec![0x08, 0x07, 0x06, 0x05, 0x04, 0x03, 0x02, 0x01]);
    let mut max = Vec::new();
    put_le(&mut max, u64::MAX, 8);
    assert_eq!(max, vec![0xff; 8]);
}

#[test]
fn put_le_cuts_off_high_bytes() {
    let mut buf = Vec::new();
    put_le(&mut buf, 0x1_0000_0001, 4);
    assert_eq!(buf, vec![1, 0, 0, 0]);
}

#[test]
fn put_le_pads_wide_fields_with_zeros() {
    let mut buf = Vec::new();
    put_le(&mut buf, u64::MAX, 10);
    assert_eq!(buf, vec![0xff, 0xff, 0xff, 0xff, 0xff, 0xff, 0xff, 0xff, 0, 0]);
}

#[test]
fn put_le_width_zero_writes_nothing() {
    let mut buf = vec![5];
    put_le(&mut buf, 77, 0);
    assert_eq!(buf, vec![5]);
}

#[test]
fn read_le_reads_what_put_le_wrote() {
    for value in [0u64, 1, 42, 255, 256, 0xdead_beef, u64::MAX - 1, u64::MAX] {
        let mut buf = Vec::new();
        put_le(&mut buf, value, 8);
        assert_eq!(read_le(&buf), Some(value));
    }
}

#[test]
fn read_le_exact_values() {
    assert_eq!(read_le(&[]), Some(0));
    assert_eq!(read_le(&[0x2a]), Some(42));
    assert_eq!(read_le(&[0x00, 0x01]), Some(256));
    assert_eq!(read_le(&[0x44, 0x33, 0x22, 0x11]), Some(0x1122_3344));
    assert_eq!(read_le(&[0xff; 8]), Some(u64::MAX));
}

#[test]
fn read_le_refuses_more_than_eight_bytes() {
    assert_eq!(read_le(&[0; 9]), None);
    assert_eq!(read_le(&[1; 16]), None);
}

#[test]
fn write_msr_record_layout() {
    let record = OlsWriteMsrInput { register: 0x10, value: 42 };
    assert_eq!(record.to_bytes(), vec![0x10, 0, 0, 0, 0, 0, 0, 0, 42, 0, 0, 0, 0, 0, 0, 0]);
}

#[test]
fn write_msr_record_layout_with_all_bytes_used() {
    let record = OlsWriteMsrInput { register: 0xc001_0015, value: 0x0102_0304_0506_0708 };
    assert_eq!(
        record.to_bytes(),
        vec![0x15, 0x00, 0x01, 0xc0, 0, 0, 0, 0, 0x08, 0x07, 0x06, 0x05, 0x04, 0x03, 0x02, 0x01]
    );
}
