use columnar::ArrayVector;
use columnar::DataTypeDesc;
use columnar::FlatVector;
use columnar::Inserter;
use columnar::ListVector;
use columnar::LogicalTypeHandle;
use columnar::StructVector;
use columnar::Type;
use columnar::ValidityMask;

#[test]
fn null_rows_read_back_null() {
    let mut v = FlatVector::with_capacity(LogicalTypeHandle::primitive(), 0i64, 5);
    for row in 0..5u64 {
        assert!(!v.row_is_null(row));
    }
    v.set_null(3);
    assert!(v.row_is_null(3));
    assert!(!v.row_is_null(0));
    assert!(!v.row_is_null(2));
    assert!(!v.row_is_null(4));
}

#[test]
fn null_rows_across_word_boundaries() {
    let mut m = ValidityMask::new(130);
    m.set_null(0);
    m.set_null(63);
    m.set_null(64);
    m.set_null(129);
    assert!(m.row_is_null(0));
    assert!(m.row_is_null(63));
    assert!(m.row_is_null(64));
    assert!(m.row_is_null(129));
    assert!(!m.row_is_null(1));
    assert!(!m.row_is_null(65));
    assert!(!m.row_is_null(128));
}

#[test]
fn copy_round_trip_lengths() {
    // n = 0
    let mut v = FlatVector::with_capacity(LogicalTypeHandle::primitive(), 7i32, 4);
    v.copy(&[]);
    assert_eq!(v.as_slice(), &[7, 7, 7, 7]);

    // n = 1
    v.copy(&[42]);
    assert_eq!(v.as_slice(), &[42, 7, 7, 7]);

    // n = capacity
    v.copy(&[1, 2, 3, 4]);
    assert_eq!(v.as_slice(), &[1, 2, 3, 4]);
    assert_eq!(v.as_slice_with_len(2), &[1, 2]);
}

#[test]
fn mutable_views_write_through() {
    let mut v = FlatVector::with_capacity(LogicalTypeHandle::primitive(), 0i32, 4);
    {
        let cells = v.as_mut_slice();
        cells[0] = 5;
        cells[3] = 9;
    }
    assert_eq!(v.as_slice(), &[5, 0, 0, 9]);
    {
        let front = v.as_mut_slice_with_len(2);
        assert_eq!(front.len(), 2);
        front[1] = 7;
    }
    assert_eq!(v.as_slice(), &[5, 7, 0, 9]);
}

#[test]
fn zero_capacity_vector_is_valid() {
    let mut v = FlatVector::with_capacity(LogicalTypeHandle::primitive(), 0u32, 0);
    assert_eq!(v.capacity(), 0);
    v.copy(&[]);
    assert_eq!(v.as_slice().len(), 0);
}

#[test]
fn binary_safe_insert_keeps_embedded_zero() {
    let content = vec![b'a', b'b', 0u8, b'c', b'd'];
    let mut v = FlatVector::new_bytes(LogicalTypeHandle::primitive(), 2);

    // the binary-safe path recovers the exact bytes, embedded zero included
    v.insert(0, &content);
    assert_eq!(v.as_slice()[0], content);
    assert_eq!(v.as_slice()[0].len(), 5);

    // the null-terminated path truncates at the embedded zero: it differs
    v.insert_terminated(1, &content);
    assert_eq!(v.as_slice()[1], b"ab".to_vec());
    assert!(v.as_slice()[0] != v.as_slice()[1]);
}

#[test]
fn terminated_insert_without_zero_keeps_all() {
    let mut v = FlatVector::new_bytes(LogicalTypeHandle::primitive(), 1);
    v.insert_terminated(0, b"plain");
    assert_eq!(v.as_slice()[0], b"plain".to_vec());
}

#[test]
fn empty_string_insert() {
    let mut v = FlatVector::new_bytes(LogicalTypeHandle::primitive(), 1);
    v.insert(0, "");
    assert_eq!(v.as_slice()[0], Vec::<u8>::new());
}

#[test]
fn list_entries_concatenate_child_runs() {
    let mut lv = ListVector::new(LogicalTypeHandle::primitive(), 2, 0i64);
    lv.reserve(5);
    {
        let child = lv.child(5);
        child.copy(&[10, 20, 30, 40, 50]);
    }
    lv.set_entry(0, 0, 3);
    lv.set_entry(1, 3, 2);
    lv.set_len(5);

    assert_eq!(lv.len(), 5);
    assert!(!lv.is_empty());
    let child = lv.child(0);
    assert_eq!(&child.as_slice()[0..5], &[10, 20, 30, 40, 50]);
}

#[test]
fn list_set_child_publishes_length() {
    let mut lv = ListVector::new(LogicalTypeHandle::primitive(), 1, 0i32);
    assert!(lv.is_empty());
    lv.set_child(&[1, 2, 3]);
    assert_eq!(lv.len(), 3);
    let child = lv.child(0);
    assert_eq!(child.as_slice(), &[1, 2, 3]);
}

#[test]
fn list_of_int_with_null_row() {
    // two rows: row 0 = [1, 2, 3], row 1 = null
    let mut lv = ListVector::new(LogicalTypeHandle::primitive(), 2, 0i32);
    lv.reserve(3);
    {
        let child = lv.child(3);
        child.copy(&[1, 2, 3]);
    }
    lv.set_entry(0, 0, 3);
    lv.set_len(3);
    lv.set_null(1);

    assert!(lv.row_is_null(1));
    assert!(!lv.row_is_null(0));
    let entry = lv.entry(0);
    assert_eq!(entry.offset, 0);
    assert_eq!(entry.length, 3);
    let child = lv.child(0);
    assert_eq!(&child.as_slice()[0..3], &[1, 2, 3]);
}

#[test]
fn array_rows_occupy_fixed_runs() {
    let logical = LogicalTypeHandle::array(2);
    let mut av = ArrayVector::new(logical, 3, 0i64);
    assert_eq!(av.get_array_size(), 2);
    av.set_child(&[1, 2, 3, 4, 5, 6]);

    let child = av.child();
    assert_eq!(child.capacity(), 6);
    for row in 0..3usize {
        assert_eq!(&child.as_slice()[row * 2..(row + 1) * 2], &[(row * 2 + 1) as i64, (row * 2 + 2) as i64]);
    }
    av.set_null(2);
    assert!(av.row_is_null(2));
    assert!(!av.row_is_null(0));
}

#[test]
fn struct_children_match_declared_names() {
    let names = vec![String::from("id"), String::from("score")];
    let logical = LogicalTypeHandle::with_child_names(names);
    let children = vec![
        FlatVector::with_capacity(LogicalTypeHandle::primitive(), 0i64, 4),
        FlatVector::with_capacity(LogicalTypeHandle::primitive(), 0i64, 4),
    ];
    let mut sv = StructVector::new(logical, 4, children);

    assert_eq!(sv.num_children(), 2);
    // stable across repeated calls on the same handle
    assert_eq!(sv.child_name(0), "id");
    assert_eq!(sv.child_name(0), "id");
    assert_eq!(sv.child_name(1), "score");
    assert_eq!(sv.child_name(1), "score");

    let mut replacement = FlatVector::with_capacity(LogicalTypeHandle::primitive(), 0i64, 4);
    replacement.copy(&[9, 8, 7, 6]);
    sv.replace_child(0, replacement);
    assert_eq!(sv.child(0).as_slice(), &[9, 8, 7, 6]);

    sv.set_null(1);
    assert!(sv.row_is_null(1));
    assert!(!sv.row_is_null(0));
}

#[test]
fn struct_of_lists_composes() {
    // nested containers compose by type: a struct column whose single child
    // is a list-of-int column
    let logical = LogicalTypeHandle::with_child_names(vec![String::from("values")]);
    let mut inner = ListVector::new(LogicalTypeHandle::primitive(), 2, 0i64);
    inner.set_child(&[4, 5]);
    inner.set_entry(0, 0, 2);
    let children = vec![inner];
    let sv = StructVector::new(logical, 2, children);

    assert_eq!(sv.num_children(), 1);
    assert_eq!(sv.child_name(0), "values");
    assert_eq!(sv.child(0).len(), 2);
    let entry = sv.child(0).entry(0);
    assert_eq!((entry.offset, entry.length), (0, 2));
}

#[test]
fn data_type_mapping() {
    assert_eq!(Type::from_data_type(&DataTypeDesc::Null), Type::Null);
    assert_eq!(Type::from_data_type(&DataTypeDesc::Boolean), Type::Boolean);
    assert_eq!(Type::from_data_type(&DataTypeDesc::Int8), Type::TinyInt);
    assert_eq!(Type::from_data_type(&DataTypeDesc::Int32), Type::Int);
    assert_eq!(Type::from_data_type(&DataTypeDesc::Int64), Type::BigInt);
    assert_eq!(Type::from_data_type(&DataTypeDesc::UInt64), Type::UBigInt);
    assert_eq!(Type::from_data_type(&DataTypeDesc::Float64), Type::Float);
    assert_eq!(Type::from_data_type(&DataTypeDesc::Utf8), Type::Text);
    assert_eq!(Type::from_data_type(&DataTypeDesc::LargeUtf8), Type::Text);
    assert_eq!(Type::from_data_type(&DataTypeDesc::Binary), Type::Blob);
    assert_eq!(Type::from_data_type(&DataTypeDesc::Decimal128), Type::Decimal);
    assert_eq!(
        Type::from_data_type(&DataTypeDesc::List(Box::new(DataTypeDesc::Int64))),
        Type::List(Box::new(Type::BigInt))
    );
    assert_eq!(
        Type::from_data_type(&DataTypeDesc::LargeList(Box::new(DataTypeDesc::Utf8))),
        Type::List(Box::new(Type::Text))
    );
}

#[test]
fn type_names() {
    assert_eq!(Type::Null.name(), "Null");
    assert_eq!(Type::BigInt.name(), "BigInt");
    assert_eq!(Type::List(Box::new(Type::Int)).name(), "List");
    assert_eq!(Type::Text.name(), "Text");
}
