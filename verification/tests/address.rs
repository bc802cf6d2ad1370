use zerofs::address::{
    collect_addresses, default_9p_addresses, default_nbd_addresses, default_nfs_addresses,
    default_prometheus_addresses, default_rpc_addresses, default_webui_addresses,
    expand_socket_addrs, AddressError, AddressSet, SocketAddr,
};
use zerofs::expand::{
    collect_expansions, expand_optional_string, expand_string, expand_string_vec,
    optional_expansion, LookupFailure,
};

fn v4(octets: [u8; 4], port: u16) -> SocketAddr {
    SocketAddr::V4 { ipv4: u32::from_be_bytes(octets), port }
}

/// Reads `a.b.c.d:port`.
fn parse(text: &String) -> Result<SocketAddr, String> {
    let bad = || "invalid socket address syntax".to_string();
    let (host, port) = text.split_once(':').ok_or_else(bad)?;
    let octets: Vec<u8> =
        host.split('.').map(|o| o.parse::<u8>()).collect::<Result<_, _>>().map_err(|_| bad())?;
    let octets: [u8; 4] = octets.try_into().map_err(|_| bad())?;
    Ok(v4(octets, port.parse().map_err(|_| bad())?))
}

#[test]
fn every_server_has_its_local_port() {
    for (set, port) in [
        (default_webui_addresses(), 8080),
        (default_nfs_addresses(), 2049),
        (default_9p_addresses(), 5564),
        (default_nbd_addresses(), 10809),
        (default_prometheus_addresses(), 9091),
        (default_rpc_addresses(), 7000),
    ] {
        assert_eq!(set.to_vec(), vec![v4([127, 0, 0, 1], port)]);
        assert!(set.contains(&v4([127, 0, 0, 1], port)));
        assert!(!set.contains(&v4([127, 0, 0, 1], port + 1)));
    }
}

#[test]
fn a_set_holds_an_address_once() {
    let mut set = AddressSet::new();
    assert_eq!(set.len(), 0);
    let six = SocketAddr::V6 { ipv6: 1, port: 2049, flowinfo: 0, scope_id: 0 };
    set.insert(v4([0, 0, 0, 0], 2049));
    set.insert(six);
    set.insert(v4([0, 0, 0, 0], 2049));
    assert_eq!(set.to_vec(), vec![v4([0, 0, 0, 0], 2049), six]);
    let copy = set.clone();
    set.insert(v4([0, 0, 0, 0], 1));
    assert_eq!((copy.len(), set.len()), (2, 3));
}

#[test]
fn addresses_are_read_entry_by_entry() {
    let raw: Vec<String> = ["0.0.0.0:2049", "10.0.0.7:2049", "0.0.0.0:2049"].map(String::from).into();
    let set = expand_socket_addrs(&raw, &parse).unwrap();
    assert_eq!(set.to_vec(), vec![v4([0, 0, 0, 0], 2049), v4([10, 0, 0, 7], 2049)]);
    assert_eq!(expand_socket_addrs(&Vec::new(), &parse).unwrap().len(), 0);
}

#[test]
fn the_first_bad_address_is_reported() {
    let raw: Vec<String> =
        ["127.0.0.1:1", "not-an-address", "127.0.0.1:2", "neither"].map(String::from).into();
    let err = expand_socket_addrs(&raw, &parse).unwrap_err();
    assert_eq!(
        err.message(),
        "invalid socket address \"not-an-address\" (expected host:port): invalid socket address syntax"
    );
}

#[test]
fn a_missing_variable_spoils_an_address() {
    let raw = vec!["${ZEROFS_TEST_NO_SUCH_HOST}:2049".to_string()];
    let err = expand_socket_addrs(&raw, &parse).unwrap_err();
    assert!(matches!(&err, AddressError::Unexpanded(f) if f.var_name == "ZEROFS_TEST_NO_SUCH_HOST"));
    assert_eq!(
        err.message(),
        "Failed to expand environment variable: error looking key \
         'ZEROFS_TEST_NO_SUCH_HOST' up: environment variable not found"
    );
}

#[test]
fn readings_make_up_a_set() {
    let failure = || AddressError::Unparsed { expanded: "x".to_string(), reason: "why".to_string() };
    let one = v4([1, 2, 3, 4], 5);
    let set = collect_addresses(vec![Ok(one), Ok(one)]).unwrap();
    assert_eq!(set.to_vec(), vec![one]);
    let err = collect_addresses(vec![Ok(one), Err(failure()), Ok(one)]).unwrap_err();
    assert_eq!(err.message_quoting("<x>"), "invalid socket address <x> (expected host:port): why");
}

#[test]
fn text_is_expanded_as_shellexpand_does() {
    for text in [
        "plain", "", "$$", "a$$b", "${PATH}", "$PATH/x", "x${HOME}y", "${ZEROFS_TEST_NONE:-fallback}",
        "${ZEROFS_TEST_NONE}", "$ZEROFS_TEST_NONE", "100%", "$", "${open", "$-",
    ] {
        let expected = shellexpand::env(text).map(|s| s.into_owned());
        match (expand_string(text), expected) {
            (Ok(got), Ok(want)) => assert_eq!(got, want, "expanding {text:?}"),
            (Err(got), Err(want)) => {
                assert_eq!(got.var_name, want.var_name);
                assert_eq!(
                    got.message(),
                    format!("Failed to expand environment variable: {}", want)
                );
            }
            (got, want) => panic!("expanding {text:?}: {got:?}, not {want:?}"),
        }
    }
}

#[test]
fn a_doubled_dollar_stands_for_one() {
    assert_eq!(expand_string("pa$$word").unwrap(), "pa$word");
    assert_eq!(expand_string("no variables").unwrap(), "no variables");
    assert_eq!(expand_string("<${ZEROFS_TEST_NONE:-x}>").unwrap(), "<x>");
    assert_eq!(expand_string("$$$$ 5$ $-{}").unwrap(), "$$ 5$ $-{}");
    assert_eq!(
        expand_string("a${ZEROFS_TEST_NONE:-1}$$b${ZEROFS_TEST_NONE:-2}c").unwrap(),
        "a1$b2c"
    );
    assert_eq!(expand_string("x$ZEROFS_TEST_NONE/y").unwrap_err().var_name, "ZEROFS_TEST_NONE");
    assert_eq!(expand_string("${}").unwrap_err().var_name, "");
    assert_eq!(expand_string("${ZEROFS$X}").unwrap_err().var_name, "ZEROFS$X");
    assert_eq!(expand_string("${:-x}").unwrap_err().var_name, ":-x");
    // What is written as a default is taken as it is.
    assert_eq!(expand_string("${ZEROFS_TEST_NONE:-$$a:-b}").unwrap(), "$$a:-b");
    // A brace that is not closed keeps nothing behind it from being expanded.
    assert_eq!(expand_string("x${open$$ ${").unwrap(), "x${open$ ${");
    assert_eq!(expand_string("${a$ZEROFS_TEST_NONE").unwrap_err().var_name, "ZEROFS_TEST_NONE");
}

#[test]
fn an_absent_text_stays_absent() {
    assert_eq!(expand_optional_string(&None).unwrap(), None);
    assert_eq!(
        expand_optional_string(&Some("a$$".to_string())).unwrap(),
        Some("a$".to_string())
    );
    assert!(expand_optional_string(&Some("$ZEROFS_TEST_NONE".to_string())).is_err());
    assert_eq!(optional_expansion(None).unwrap(), None);
    assert_eq!(optional_expansion(Some(Ok("x".to_string()))).unwrap(), Some("x".to_string()));
}

#[test]
fn entries_are_expanded_on_their_own() {
    let entries: Vec<String> = ["a,b", "$$", "c"].map(String::from).into();
    assert_eq!(expand_string_vec(&entries).unwrap(), vec!["a,b", "$", "c"]);
    let spoilt: Vec<String> = ["a", "${ZEROFS_TEST_NONE}"].map(String::from).into();
    assert_eq!(expand_string_vec(&spoilt).unwrap_err().var_name, "ZEROFS_TEST_NONE");
    let twice: Vec<String> = ["$ZEROFS_TEST_NONE_A", "$ZEROFS_TEST_NONE_B"].map(String::from).into();
    assert_eq!(expand_string_vec(&twice).unwrap_err().var_name, "ZEROFS_TEST_NONE_A");
}

#[test]
fn the_first_failed_expansion_stands_for_all() {
    let failure = |name: &str| LookupFailure {
        var_name: name.to_string(),
        cause: "environment variable not found".to_string(),
    };
    let ok = |text: &str| Ok(text.to_string());
    assert_eq!(collect_expansions(vec![ok("a"), ok("b")]).unwrap(), vec!["a", "b"]);
    let err = collect_expansions(vec![ok("a"), Err(failure("X")), Err(failure("Y"))]).unwrap_err();
    assert_eq!(
        err.message(),
        "Failed to expand environment variable: error looking key 'X' up: environment variable not found"
    );
}
