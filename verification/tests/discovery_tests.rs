use iota_client::{
    scan_balances, Client, DerivationPath, Error, GetUnspentAddressBuilder, GAP_LIMIT,
};

fn chain() -> DerivationPath {
    // m/0'/0'
    DerivationPath { segments: vec![0x8000_0000, 0x8000_0000] }
}

#[test]
fn missing_path_fails_before_any_request() {
    let builder = GetUnspentAddressBuilder::new(vec![1, 2, 3]);
    match builder.get() {
        Err(Error::MissingParameter(which)) => assert_eq!(which, "BIP32 path"),
        _ => panic!("expected MissingParameter"),
    }
}

#[test]
fn missing_index_defaults_to_zero() {
    let scan = GetUnspentAddressBuilder::new(vec![9]).path(chain()).get().unwrap();
    assert_eq!(scan.cursor, 0);
    let (start, end) = scan.next_batch_range();
    assert_eq!((start, end), (0, GAP_LIMIT));
}

#[test]
fn start_index_is_honoured() {
    let scan = GetUnspentAddressBuilder::new(vec![9]).path(chain()).index(7).get().unwrap();
    assert_eq!(scan.cursor, 7);
}

#[test]
fn first_zero_balance_wins_in_batch_order() {
    let mut scan = GetUnspentAddressBuilder::new(vec![9]).path(chain()).get().unwrap();
    let found = scan.on_batch(&vec![5, 0, 3]);
    assert_eq!(found, Some(1));
    assert_eq!(scan.cursor, 1);
}

#[test]
fn full_batch_of_nonzero_advances_the_cursor() {
    let mut scan = GetUnspentAddressBuilder::new(vec![9]).path(chain()).get().unwrap();
    let found = scan.on_batch(&vec![4, 4, 4, 4]);
    assert_eq!(found, None);
    assert_eq!(scan.cursor, 4);
    let found = scan.on_batch(&vec![4, 0]);
    assert_eq!(found, Some(5));
}

#[test]
fn scan_result_does_not_depend_on_batch_size() {
    let balances = vec![5, 0, 3];
    for batch in 1..=(2 * GAP_LIMIT) {
        assert_eq!(scan_balances(&balances, 0, batch), Some(1));
    }
}

#[test]
fn scan_skips_the_prefix_before_the_start_index() {
    let balances = vec![0, 7, 7, 0, 7];
    assert_eq!(scan_balances(&balances, 1, GAP_LIMIT), Some(3));
    assert_eq!(scan_balances(&balances, 0, GAP_LIMIT), Some(0));
}

#[test]
fn scan_without_zero_finds_nothing() {
    assert_eq!(scan_balances(&vec![1, 2, 3], 0, 2), None);
    assert_eq!(scan_balances(&vec![], 0, 1), None);
    assert_eq!(scan_balances(&vec![0], 1, 1), None);
}

#[test]
fn client_hands_out_a_fresh_builder() {
    let client = Client::builder().build();
    let builder = client.get_unspent_address(&vec![1, 2]);
    assert_eq!(builder.seed, vec![1, 2]);
    assert!(builder.path.is_none());
    assert!(builder.index.is_none());
}
