use kimojio::pointer_buffer::{id_from_buffer, id_to_buffer, IdPointerMsg};

#[test]
fn test_id_conversion() {
    let id = 99;
    let buf = id_to_buffer(id);
    let result = id_from_buffer(buf);
    assert_eq!(id, result);
}

#[test]
fn test_id_pointer_conversion() {
    let id = 99;
    // The program keeps the value under the number that travels.
    let values = vec!["mystr".to_string()];
    let msg = IdPointerMsg::from_id_box(id, 0);
    let (id2, pointer) = msg.into_id_box();
    assert_eq!(id, id2);
    assert_eq!(values[pointer as usize], "mystr");
}

#[test]
fn message_bytes_are_in_order() {
    let mut msg = IdPointerMsg::from_id_box(0x0102030405060708, 0x1112131415161718);
    let bytes = *msg.as_ref().unwrap();
    assert_eq!(
        bytes,
        [1, 2, 3, 4, 5, 6, 7, 8, 0x18, 0x17, 0x16, 0x15, 0x14, 0x13, 0x12, 0x11]
    );
    assert_eq!(IdPointerMsg::new(bytes).into_id_box(), (0x0102030405060708, 0x1112131415161718));
    assert_eq!(msg.take(), Some((0x0102030405060708, 0x1112131415161718)));
    assert_eq!(msg.take(), None);
    assert!(msg.as_ref().is_none());
    assert_eq!(id_to_buffer(258), [0, 0, 0, 0, 0, 0, 1, 2]);
}

#[test]
fn bytes_come_back_from_their_identifier() {
    let bytes = [0xff, 0, 1, 2, 3, 4, 5, 0x80];
    assert_eq!(id_to_buffer(id_from_buffer(bytes)), bytes);
}
