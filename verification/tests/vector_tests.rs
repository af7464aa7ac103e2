use columnar::FlatVector;
use columnar::Inserter;
use columnar::LogicalTypeHandle;

#[test]
fn test_insert_string_values() {
    let mut vector = FlatVector::new_bytes(LogicalTypeHandle::primitive(), 3);

    vector.insert(0, "first");
    vector.insert(1, &String::from("second"));
    // the null-terminated path carries the bytes up to the terminator
    vector.insert_terminated(2, b"third\0");

    let rows = vector.as_slice();
    assert_eq!(rows[0], b"first".to_vec());
    assert_eq!(rows[1], b"second".to_vec());
    assert_eq!(rows[2], b"third".to_vec());
}

#[test]
fn test_insert_byte_values() {
    let mut vector = FlatVector::new_bytes(LogicalTypeHandle::primitive(), 2);

    vector.insert(0, b"hello world".as_slice());
    vector.insert(
        1,
        &vec![0x68, 0x65, 0x6c, 0x6c, 0x6f, 0x20, 0x77, 0x6f, 0x72, 0x6c, 0x64],
    );

    let rows = vector.as_slice();
    assert_eq!(rows[0], b"hello world".to_vec());
    assert_eq!(rows[1], b"hello world".to_vec());
}
