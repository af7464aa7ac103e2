use columnar::FlatVector;
use columnar::Inserter;
use columnar::LogicalTypeHandle;

fn blob_column(rows: usize) -> FlatVector<Vec<u8>> {
    FlatVector::new_bytes(LogicalTypeHandle::primitive(), rows)
}

fn int_column(rows: usize) -> FlatVector<i64> {
    FlatVector::with_capacity(LogicalTypeHandle::primitive(), 0i64, rows)
}

#[test]
fn test_blob() {
    let v1234 = vec![1u8, 2, 3, 4];
    let mut column = blob_column(1);
    column.insert(0, &v1234);

    let v: Vec<u8> = column.as_slice()[0].clone();
    assert_eq!(v, v1234);
}

#[test]
fn test_empty_blob() {
    let empty: Vec<u8> = vec![];
    let mut column = blob_column(1);
    column.insert(0, &empty);

    let v: Vec<u8> = column.as_slice()[0].clone();
    assert_eq!(v, empty);
}

#[test]
fn test_str() {
    let s = "hello, world!";
    let mut column = blob_column(1);
    column.insert(0, s);

    let from = String::from_utf8(column.as_slice()[0].clone()).unwrap();
    assert_eq!(from, s);
}

#[test]
fn test_string() {
    let s = "hello, world!";
    let mut column = blob_column(1);
    column.insert(0, &s.to_owned());

    let from = String::from_utf8(column.as_slice()[0].clone()).unwrap();
    assert_eq!(from, s);
}

#[test]
fn test_value() {
    let mut column = int_column(1);
    column.copy(&[10i64]);

    assert_eq!(10i64, column.as_slice()[0]);
}

#[test]
fn test_option() {
    let s = "hello, world!";
    let b = Some(vec![1u8, 2, 3, 4]);

    let mut t_column = blob_column(2);
    let mut b_column = blob_column(2);
    t_column.insert(0, s);
    b_column.set_null(0);
    t_column.set_null(1);
    b_column.insert(1, b.as_ref().unwrap());

    {
        let s1: Option<String> = if t_column.row_is_null(0) {
            None
        } else {
            Some(String::from_utf8(t_column.as_slice()[0].clone()).unwrap())
        };
        let b1: Option<Vec<u8>> = if b_column.row_is_null(0) {
            None
        } else {
            Some(b_column.as_slice()[0].clone())
        };
        assert_eq!(s, s1.unwrap());
        assert!(b1.is_none());
    }

    {
        let s2: Option<String> = if t_column.row_is_null(1) {
            None
        } else {
            Some(String::from_utf8(t_column.as_slice()[1].clone()).unwrap())
        };
        let b2: Option<Vec<u8>> = if b_column.row_is_null(1) {
            None
        } else {
            Some(b_column.as_slice()[1].clone())
        };
        assert!(s2.is_none());
        assert_eq!(b, b2);
    }
}

#[test]
fn test_dynamic_type() {
    // the blob literal X'0102' arrives as its textual bytes
    let mut b_column = blob_column(1);
    b_column.insert(0, &vec![120u8, 48, 49, 48, 50]);
    assert_eq!(vec![120u8, 48, 49, 48, 50], b_column.as_slice()[0].clone());

    let mut t_column = blob_column(1);
    t_column.insert(0, "text");
    assert_eq!(b"text".to_vec(), t_column.as_slice()[0].clone());

    let mut i_column = int_column(1);
    i_column.copy(&[1i64]);
    assert_eq!(1i64, i_column.as_slice()[0]);

    let mut n_column = int_column(1);
    n_column.set_null(0);
    assert!(n_column.row_is_null(0));
}
