use evalbox::fuzz_input::syscalls_from_bytes;

#[test]
fn fuzz_input_rejects_bad_lengths() {
    assert!(syscalls_from_bytes(&[]).is_none());
    assert!(syscalls_from_bytes(&[1, 2, 3]).is_none());
    assert!(syscalls_from_bytes(&[0; 9]).is_none());
    assert!(syscalls_from_bytes(&[0; 201 * 8]).is_none());
    assert_eq!(syscalls_from_bytes(&[0; 200 * 8]).unwrap().len(), 200);
}

#[test]
fn fuzz_input_decodes_little_endian() {
    let mut data = vec![1, 0, 0, 0, 0, 0, 0, 0];
    data.extend_from_slice(&[0xff; 8]);
    data.extend_from_slice(&[0x02, 0x01, 0, 0, 0, 0, 0, 0x80]);
    let syscalls = syscalls_from_bytes(&data).unwrap();
    assert_eq!(syscalls, vec![1, -1, i64::MIN + 0x0102]);
}
