use triton_client::buffer::{
    get_field, replace_contents, replace_field, replace_rows, set_field, take_field, Matrix,
};
use triton_client::container::{List, ListBool, ListI16, ListI32, ListI64, ListI8, ListU16, ListU32, ListU64, ListU8};
use triton_client::error::Error;

fn round_trip<T: Copy + PartialEq + std::fmt::Debug>(s: Vec<T>) {
    let l = List::new(s.clone());
    assert_eq!(l.to_list(), s);
    let from_arr = List::from_array(&s);
    assert_eq!(from_arr.to_array(), s);
    assert_eq!(from_arr.into_vec(), s);
}

#[test]
fn round_trip_every_kind() {
    round_trip::<bool>(vec![true, false, true]);
    round_trip::<i8>(vec![-128, 0, 127]);
    round_trip::<i16>(vec![-300, 7]);
    round_trip::<i32>(vec![1, -2, 3]);
    round_trip::<i64>(vec![i64::MIN, i64::MAX]);
    round_trip::<u8>(vec![0, 255]);
    round_trip::<u16>(vec![65535]);
    round_trip::<u32>(vec![4, 5, 6]);
    round_trip::<u64>(vec![u64::MAX, 0]);
    round_trip::<f32>(vec![1.5, -2.25]);
    round_trip::<f64>(vec![0.1, 1e300]);
    round_trip::<i32>(vec![]);
}

#[test]
fn named_containers_are_instances() {
    let _: ListBool = List::new(vec![true]);
    let _: ListI8 = List::new(vec![1i8]);
    let _: ListI16 = List::new(vec![1i16]);
    let _: ListI32 = List::new(vec![1i32]);
    let _: ListI64 = List::new(vec![1i64]);
    let _: ListU8 = List::new(vec![1u8]);
    let _: ListU16 = List::new(vec![1u16]);
    let _: ListU32 = List::new(vec![1u32]);
    let l: ListU64 = List::new(vec![1u64, 2]);
    assert_eq!(l.len(), 2);
}

#[test]
fn index_read_and_write() {
    let mut l = List::new(vec![10i32, 20, 30]);
    assert_eq!(l.get(1).unwrap(), 20);
    assert!(l.set(2, 99).is_ok());
    assert_eq!(l.to_list(), vec![10, 20, 99]);
    assert!(matches!(l.get(3), Err(Error::IndexOutOfRange { index: 3, len: 3 })));
    assert!(matches!(l.set(3, 1), Err(Error::IndexOutOfRange { index: 3, len: 3 })));
    assert_eq!(l.to_list(), vec![10, 20, 99]);
}

#[test]
fn insert_boundary() {
    let mut l = List::new(vec![1u8, 2]);
    assert!(l.insert(2, 3).is_ok());
    assert_eq!(l.to_list(), vec![1, 2, 3]);
    assert!(l.insert(0, 0).is_ok());
    assert_eq!(l.to_list(), vec![0, 1, 2, 3]);
    assert!(matches!(l.insert(5, 9), Err(Error::IndexOutOfRange { index: 5, len: 4 })));
    assert_eq!(l.len(), 4);
}

#[test]
fn remove_shifts_and_checks_bounds() {
    let mut l = List::new(vec![5u16, 6, 7]);
    assert!(matches!(l.remove(3), Err(Error::IndexOutOfRange { index: 3, len: 3 })));
    assert_eq!(l.remove(0).unwrap(), 5);
    assert_eq!(l.to_list(), vec![6, 7]);
}

#[test]
fn append_clear_copy_and_move_out() {
    let mut l = List::new(Vec::<i64>::new());
    l.append(4);
    l.append(-4);
    let c = l.copy();
    assert_eq!(l.into_array(), vec![4, -4]);
    assert_eq!(l.len(), 0);
    assert_eq!(c.to_list(), vec![4, -4]);
    let mut c2 = c.copy();
    c2.clear();
    assert_eq!(c2.len(), 0);
    assert_eq!(c.len(), 2);
}

#[test]
fn get_does_not_change_the_field() {
    let field = vec![1u32, 2, 3];
    let a = get_field(&field);
    let b = get_field(&field);
    assert_eq!(a.to_list(), vec![1, 2, 3]);
    assert_eq!(b.to_list(), vec![1, 2, 3]);
    assert_eq!(field, vec![1, 2, 3]);
}

#[test]
fn take_moves_contents_once() {
    let mut field = vec![true, false];
    let t = take_field(&mut field);
    assert_eq!(t.to_list(), vec![true, false]);
    assert!(field.is_empty());
    assert_eq!(take_field(&mut field).len(), 0);
}

#[test]
fn replace_swaps_contents() {
    let mut field = vec![1i8, 2];
    let old = replace_field(&mut field, List::new(vec![7, 8, 9]));
    assert_eq!(old.to_list(), vec![1, 2]);
    assert_eq!(field, vec![7, 8, 9]);
    let old = replace_contents(&mut field, None);
    assert_eq!(old, vec![7, 8, 9]);
    assert!(field.is_empty());
    let old = replace_contents(&mut field, Some(vec![3]));
    assert!(old.is_empty());
    assert_eq!(field, vec![3]);
}

#[test]
fn set_copies_and_keeps_source() {
    let mut field = vec![0u64];
    let src = List::new(vec![5u64, 6]);
    set_field(&mut field, &src);
    assert_eq!(field, vec![5, 6]);
    assert_eq!(src.to_list(), vec![5, 6]);
}

struct Record {
    name: String,
    values: Vec<f32>,
}

#[test]
fn take_on_float_field() {
    let mut rec = Record { name: "input0".to_string(), values: vec![1.0, 2.0, 3.0] };
    let taken = take_field(&mut rec.values);
    assert_eq!(taken.len(), 3);
    assert_eq!(taken.to_list(), vec![1.0f32, 2.0, 3.0]);
    assert_eq!(get_field(&rec.values).len(), 0);
    assert_eq!(rec.name, "input0");
}

#[test]
fn byte_matrix_replace_stores_rows() {
    let mut field: Vec<Vec<u8>> = Vec::new();
    let m = Matrix::new(2, 3, &[1, 2, 3, 4, 5, 6]).unwrap();
    let old = replace_rows(&mut field, Some(m)).unwrap();
    assert_eq!(old.row_count(), 0);
    assert_eq!(field, vec![vec![1, 2, 3], vec![4, 5, 6]]);
    let back = replace_rows(&mut field, None).unwrap();
    assert_eq!((back.row_count(), back.col_count()), (2, 3));
    assert_eq!(back.into_rows(), vec![vec![1, 2, 3], vec![4, 5, 6]]);
    assert!(field.is_empty());
}

#[test]
fn ragged_rows_are_rejected() {
    let ragged = vec![vec![1u8, 2], vec![3, 4, 5]];
    assert!(matches!(
        Matrix::from_rows(ragged.clone()),
        Err(Error::DimensionMismatch { expected: 2, found: 3 })
    ));
    let mut field = ragged.clone();
    let m = Matrix::new(1, 1, &[9]).unwrap();
    assert!(matches!(replace_rows(&mut field, Some(m)), Err(Error::DimensionMismatch { .. })));
    assert_eq!(field, ragged);
}

#[test]
fn flat_buffer_shape_must_match() {
    assert!(matches!(Matrix::new(2, 3, &[1, 2, 3, 4, 5]), Err(Error::DimensionMismatch { .. })));
    assert!(matches!(Matrix::new(0, 3, &[1]), Err(Error::DimensionMismatch { .. })));
    let empty_rows = Matrix::new(2, 0, &[]).unwrap();
    assert_eq!(empty_rows.rows(), &vec![Vec::<u8>::new(), Vec::new()]);
}

#[test]
fn rectangular_rows_are_accepted() {
    let m = Matrix::from_rows(vec![vec![1, 2, 3], vec![4, 5, 6]]).unwrap();
    assert_eq!((m.row_count(), m.col_count()), (2, 3));
    let e = Matrix::from_rows(Vec::new()).unwrap();
    assert_eq!((e.row_count(), e.col_count()), (0, 0));
}

#[test]
fn error_message_constructor() {
    match Error::msg("bad input") {
        Error::Msg(m) => assert_eq!(m, "bad input"),
        other => panic!("unexpected {:?}", other),
    }
}
