use columnar::ColumnError;
use columnar::FlatVector;
use columnar::ListVector;
use columnar::LogicalTypeHandle;

#[test]
fn checked_copy_reports_out_of_capacity() {
    let mut v = FlatVector::with_capacity(LogicalTypeHandle::primitive(), 0i64, 2);
    assert_eq!(v.try_copy(&[1, 2, 3]), Err(ColumnError::OutOfCapacity));
    // a refused copy leaves the cells alone
    assert_eq!(v.as_slice(), &[0, 0]);
    assert_eq!(v.try_copy(&[1, 2]), Ok(()));
    assert_eq!(v.as_slice(), &[1, 2]);
}

#[test]
fn checked_null_accessors_report_out_of_capacity() {
    let mut v = FlatVector::with_capacity(LogicalTypeHandle::primitive(), 0i64, 2);
    assert_eq!(v.try_row_is_null(2), Err(ColumnError::OutOfCapacity));
    assert_eq!(v.try_set_null(2), Err(ColumnError::OutOfCapacity));
    assert_eq!(v.try_set_null(1), Ok(()));
    assert_eq!(v.try_row_is_null(1), Ok(true));
    assert_eq!(v.try_row_is_null(0), Ok(false));
}

#[test]
fn checked_entry_reports_misuse() {
    let mut lv = ListVector::new(LogicalTypeHandle::primitive(), 2, 0i64);
    lv.reserve(4);

    // row beyond the list capacity
    assert_eq!(lv.try_set_entry(2, 0, 1), Err(ColumnError::OutOfCapacity));
    // run pointing past the reserved child storage
    assert_eq!(lv.try_set_entry(0, 2, 3), Err(ColumnError::NotReserved));
    assert_eq!(lv.try_set_entry(0, 0, 4), Ok(()));
    let entry = lv.entry(0);
    assert_eq!((entry.offset, entry.length), (0, 4));
}

#[test]
fn checked_set_len_reports_not_reserved() {
    let mut lv = ListVector::new(LogicalTypeHandle::primitive(), 1, 0i64);
    lv.reserve(3);
    assert_eq!(lv.try_set_len(4), Err(ColumnError::NotReserved));
    assert_eq!(lv.len(), 0);
    assert_eq!(lv.try_set_len(3), Ok(()));
    assert_eq!(lv.len(), 3);
}
