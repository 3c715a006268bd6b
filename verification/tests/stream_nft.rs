use trickle::common::Address;
use trickle::stream_nft::StreamNftContract;

#[test]
fn test_stream_nft_initialize() {
    let admin = Address::new(1);
    let stream = Address::new(2);

    let mut client = StreamNftContract::new();
    client.initialize(admin, stream).unwrap();

    let stored_stream = client.get_stream_contract().unwrap();
    assert_eq!(stored_stream, stream);
    assert_eq!(client.get_admin(), admin);
    assert_eq!(client.get_owner(), None);
    client.set_owner(Address::new(3));
    assert_eq!(client.get_owner(), Some(Address::new(3)));
}

#[test]
fn test_stream_nft_get_stream_contract_before_init() {
    // Before initialization no stream contract is recorded, so the host
    // aborts the read (it does not reach `get_stream_contract`).
    let client = StreamNftContract::new();
    assert!(!client.has_stream_contract());
}
