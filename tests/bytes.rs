use matrix_rhal::codec::as_bytes;
use std::mem::size_of_val;

#[test]
fn as_slice() {
    let i32_array = [0i32; 4];
    let u16_array = [0u16; 4];
    assert_eq!(as_bytes(&i32_array).len(), size_of_val(&i32_array));
    assert_eq!(as_bytes(&u16_array).len(), size_of_val(&u16_array));
}
