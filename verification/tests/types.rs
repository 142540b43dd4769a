use price_oracle::{Address, AdminChanged, Error, Symbol};

#[test]
fn symbols_keep_their_names() {
    for name in [&b""[..], b"NGN", b"XLM_USD", b"azAZ09_", b"a_longer_symbol_of_32_characters"] {
        assert_eq!(Symbol::new(name).unwrap().text(), name.to_vec());
    }
}

#[test]
fn invalid_names_make_no_symbol() {
    assert_eq!(Symbol::new(b"a_longer_symbol_of_33_characters_"), None);
    for name in [&b"XLM/USD"[..], b"a b", b"a-b", b"\0", b"@", b"[", b"`", b"{", b"/", b":", b"\xff"] {
        assert_eq!(Symbol::new(name), None);
    }
}

#[test]
fn different_names_make_different_symbols() {
    assert!(Symbol::new(b"NGN").unwrap().same(&Symbol::new(b"NGN").unwrap()));
    assert!(!Symbol::new(b"NGN").unwrap().same(&Symbol::new(b"NG").unwrap()));
    assert!(!Symbol::new(b"NGN").unwrap().same(&Symbol::new(b"NGn").unwrap()));
}

#[test]
fn addresses_have_56_characters() {
    assert_eq!(Address::new(&[b'G'; 55]), None);
    assert_eq!(Address::new(&[b'G'; 57]), None);
    let address = Address::new(&[b'G'; 56]).unwrap();
    assert_eq!(address.strkey, [b'G'; 56]);
    let mut other = [b'G'; 56];
    other[55] = b'H';
    assert!(address.same(&address));
    assert!(!address.same(&Address::new(&other).unwrap()));
    let change = AdminChanged { previous_admin: None, new_admin: address };
    assert_eq!(change.new_admin, address);
}

#[test]
fn errors_have_codes() {
    let errors = [
        Error::AssetNotFound,
        Error::Unauthorized,
        Error::InvalidAssetSymbol,
        Error::InvalidStakeAmount,
        Error::UnbondingAlreadyQueued,
        Error::UnbondingRequestNotFound,
        Error::UnbondingDelayActive,
        Error::UnbondingAlreadyReleased,
        Error::LedgerSequenceOverflow,
    ];
    for (position, error) in errors.iter().enumerate() {
        assert_eq!(error.code() as usize, position + 1);
    }
}
