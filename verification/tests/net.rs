use drippy::net::{choose_network, has_marker, passphrase};

#[test]
fn marked_name_is_recognised() {
    assert!(has_marker(b"DRIPPY_kitchen"));
    assert!(has_marker(b"DRIPPY_"));
}

#[test]
fn other_names_are_not_marked() {
    assert!(!has_marker(b""));
    assert!(!has_marker(b"DRIPPY"));
    assert!(!has_marker(b"drippy_kitchen"));
    assert!(!has_marker(b"xDRIPPY_kitchen"));
    assert!(!has_marker(b"DRIPPY-kitchen"));
    assert!(!has_marker(b"HomeNetwork"));
}

#[test]
fn passphrase_is_the_name_without_the_marker() {
    assert_eq!(passphrase(b"DRIPPY_kitchen"), Some(b"kitchen".to_vec()));
    assert_eq!(passphrase(b"DRIPPY_DRIPPY_"), Some(b"DRIPPY_".to_vec()));
    assert_eq!(passphrase(b"DRIPPY_"), Some(Vec::new()));
}

#[test]
fn unmarked_name_carries_no_passphrase() {
    assert_eq!(passphrase(b"HomeNetwork"), None);
    assert_eq!(passphrase(b"DRIPP"), None);
    assert_eq!(passphrase(b""), None);
}

#[test]
fn first_marked_network_is_chosen() {
    let names: Vec<Vec<u8>> = vec![
        b"HomeNetwork".to_vec(),
        b"DRIPPY_cellar".to_vec(),
        b"Guest".to_vec(),
        b"DRIPPY_attic".to_vec(),
    ];
    assert_eq!(choose_network(&names), Some(1));
}

#[test]
fn scan_without_marked_network_chooses_none() {
    let names: Vec<Vec<u8>> = vec![b"HomeNetwork".to_vec(), b"Guest".to_vec()];
    assert_eq!(choose_network(&names), None);
    assert_eq!(choose_network(&Vec::new()), None);
}
