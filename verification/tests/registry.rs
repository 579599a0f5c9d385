use esp01::clients::ClientsMessages;

#[test]
fn queue_is_first_in_first_out() {
    let mut registry = ClientsMessages::new(2, 4, 32);
    registry.add_client(0);
    registry.add_client_msg(0, b"first");
    registry.add_client_msg(0, b"second");
    assert_eq!(registry.get_client_next_msg(0).unwrap().get_buff_slice(), b"first");
    assert_eq!(registry.get_client_next_msg(0).unwrap().get_buff_slice(), b"second");
    assert!(registry.get_client_next_msg(0).is_none());
}

#[test]
fn overfull_queue_keeps_the_most_recent() {
    let mut registry = ClientsMessages::new(1, 2, 32);
    registry.add_client(0);
    registry.add_client_msg(0, b"a");
    registry.add_client_msg(0, b"b");
    registry.add_client_msg(0, b"c");
    assert_eq!(registry.get_client_next_msg(0).unwrap().get_buff_slice(), b"b");
    assert_eq!(registry.get_client_next_msg(0).unwrap().get_buff_slice(), b"c");
    assert!(registry.get_client_next_msg(0).is_none());
}

#[test]
fn long_payload_is_truncated_to_capacity() {
    let mut registry = ClientsMessages::new(1, 1, 4);
    registry.add_client(0);
    registry.add_client_msg(0, b"abcdefgh");
    assert_eq!(registry.get_client_next_msg(0).unwrap().get_buff_slice(), b"abcd");
}

#[test]
fn clients_are_kept_apart() {
    let mut registry = ClientsMessages::new(2, 2, 32);
    registry.add_client(0);
    registry.add_client(1);
    registry.add_client_msg(0, b"zero");
    registry.add_client_msg(1, b"one");
    assert_eq!(registry.get_client_next_msg(1).unwrap().get_buff_slice(), b"one");
    assert_eq!(registry.get_client_next_msg(0).unwrap().get_buff_slice(), b"zero");
}

#[test]
fn message_for_untracked_client_is_ignored() {
    let mut registry = ClientsMessages::new(1, 1, 32);
    registry.add_client_msg(5, b"lost");
    assert!(registry.get_client_next_msg(5).is_none());
}

#[test]
fn removing_an_untracked_client_changes_nothing() {
    let mut registry = ClientsMessages::new(1, 1, 32);
    registry.add_client(0);
    registry.add_client_msg(0, b"kept");
    registry.remove_client(9);
    assert_eq!(registry.get_client_next_msg(0).unwrap().get_buff_slice(), b"kept");
}

#[test]
fn removing_a_client_drops_its_queue() {
    let mut registry = ClientsMessages::new(2, 2, 32);
    registry.add_client(0);
    registry.add_client(1);
    registry.add_client_msg(0, b"gone");
    registry.add_client_msg(1, b"stays");
    registry.remove_client(0);
    assert!(registry.get_client_next_msg(0).is_none());
    assert_eq!(registry.get_client_next_msg(1).unwrap().get_buff_slice(), b"stays");
}

#[test]
fn duplicate_client_keeps_its_queue() {
    let mut registry = ClientsMessages::new(2, 2, 32);
    registry.add_client(0);
    registry.add_client_msg(0, b"kept");
    registry.add_client(0);
    assert_eq!(registry.get_client_next_msg(0).unwrap().get_buff_slice(), b"kept");
}

#[test]
fn clients_past_the_bound_are_not_tracked() {
    let mut registry = ClientsMessages::new(1, 1, 32);
    registry.add_client(0);
    registry.add_client(1);
    registry.add_client_msg(1, b"lost");
    assert!(registry.get_client_next_msg(1).is_none());
}
