use script_bridge::buffer::{
    boxed_slice_to_uint8array, get_backing_store_slice, get_backing_store_slice_mut,
    to_engine_buffer, Uint8Array, ZeroCopyBuf,
};

#[test]
fn slice_covers_the_view() {
    let store = [10u8, 11, 12, 13, 14, 15];
    assert_eq!(get_backing_store_slice(&store, 2, 3), &[12u8, 13, 14]);
    assert_eq!(get_backing_store_slice(&store, 0, 6), &store[..]);
    assert_eq!(get_backing_store_slice(&store, 6, 0), &[] as &[u8]);
}

#[test]
fn mutable_slice_writes_into_the_store() {
    let mut store = [1u8, 2, 3, 4, 5];
    {
        let bytes = get_backing_store_slice_mut(&mut store, 1, 2);
        assert_eq!(bytes, &[2u8, 3]);
        bytes[0] = 20;
        bytes[1] = 30;
    }
    assert_eq!(store, [1u8, 20, 30, 4, 5]);
}

#[test]
fn view_inside_the_store() {
    let store = vec![1u8, 2, 3, 4];
    let buf = ZeroCopyBuf::new(&store, 1, 2).unwrap();
    assert_eq!(buf.len(), 2);
    assert_eq!(buf.as_slice(), &[2u8, 3]);
    assert_eq!(buf.to_owned_bytes(), vec![2u8, 3]);
}

#[test]
fn view_at_the_end_of_the_store() {
    let store = vec![1u8, 2, 3, 4];
    let buf = ZeroCopyBuf::new(&store, 4, 0).unwrap();
    assert_eq!(buf.len(), 0);
    assert_eq!(buf.as_slice(), &[] as &[u8]);
}

#[test]
fn view_outside_the_store_is_refused() {
    let store = vec![1u8, 2, 3, 4];
    assert!(ZeroCopyBuf::new(&store, 3, 2).is_none());
    assert!(ZeroCopyBuf::new(&store, 5, 0).is_none());
    assert!(ZeroCopyBuf::new(&store, usize::MAX, 2).is_none());
    assert!(ZeroCopyBuf::new(&store, 2, usize::MAX).is_none());
}

#[test]
fn boxed_slice_becomes_an_array_over_all_of_it() {
    let array = boxed_slice_to_uint8array(vec![7u8, 8, 9].into_boxed_slice());
    assert_eq!(array.len(), 3);
    assert_eq!(array.as_slice(), &[7u8, 8, 9]);
}

#[test]
fn empty_result_is_no_value() {
    assert!(to_engine_buffer(Vec::new().into_boxed_slice()).is_none());
}

#[test]
fn non_empty_result_keeps_its_bytes() {
    let array = to_engine_buffer(vec![0u8, 255, 1].into_boxed_slice()).unwrap();
    assert_eq!(array.as_slice(), &[0u8, 255, 1]);
}

#[test]
fn empty_array_has_no_bytes() {
    let array = Uint8Array::empty();
    assert_eq!(array.len(), 0);
    assert_eq!(array.as_slice(), &[] as &[u8]);
    assert_eq!(Uint8Array::from_vec(vec![4u8, 5]).as_slice(), &[4u8, 5]);
}
