use solana_stablecoin::address::Address;
use solana_stablecoin::lookup::find_address;

#[test]
fn addresses_are_equal_when_their_bytes_are() {
    let mut bytes = [7u8; 32];
    let a = Address::new(bytes);
    assert_eq!(a, Address::new([7u8; 32]));
    assert_eq!(a.to_bytes(), bytes);
    bytes[31] = 8;
    assert_ne!(a, Address::new(bytes));
    bytes[31] = 7;
    bytes[0] = 6;
    assert_ne!(a, Address::new(bytes));
}

#[test]
fn search_finds_the_first_of_equal_addresses() {
    let list = vec![Address::new([1; 32]), Address::new([2; 32]), Address::new([1; 32])];
    assert_eq!(find_address(&list, &Address::new([1; 32])), Some(0));
    assert_eq!(find_address(&list, &Address::new([2; 32])), Some(1));
    assert_eq!(find_address(&list, &Address::new([3; 32])), None);
    assert_eq!(find_address(&Vec::new(), &Address::new([3; 32])), None);
}
