use local_cluster::path::join;
use local_cluster::text::decimal_string;

#[test]
fn decimal_of_zero_is_one_digit() {
    assert_eq!(decimal_string(0), "0");
}

#[test]
fn decimal_of_single_digits() {
    for n in 0u64..10 {
        assert_eq!(decimal_string(n), n.to_string());
    }
}

#[test]
fn decimal_has_no_leading_zero_and_keeps_inner_zeros() {
    assert_eq!(decimal_string(10), "10");
    assert_eq!(decimal_string(100), "100");
    assert_eq!(decimal_string(1005), "1005");
    assert_eq!(decimal_string(12345), "12345");
}

#[test]
fn decimal_of_the_largest_number() {
    assert_eq!(decimal_string(u64::MAX), "18446744073709551615");
}

#[test]
fn decimal_agrees_with_the_standard_library() {
    let mut n: u64 = 1;
    while n < u64::MAX / 7 {
        assert_eq!(decimal_string(n), n.to_string());
        assert_eq!(decimal_string(n - 1), (n - 1).to_string());
        n = n * 7 + 3;
    }
}

#[test]
fn decimal_of_different_numbers_differs() {
    let mut seen = std::collections::HashSet::new();
    for n in 0u64..2000 {
        assert!(seen.insert(decimal_string(n)));
    }
}

#[test]
fn join_puts_one_slash_between() {
    assert_eq!(join("vaults", "genesis-vault"), "vaults/genesis-vault");
    assert_eq!(join("./target/release", "sn_node"), "./target/release/sn_node");
}

#[test]
fn join_adds_no_second_slash() {
    assert_eq!(join("vaults/", "vault-1"), "vaults/vault-1");
    assert_eq!(join("/", "home"), "/home");
}

#[test]
fn join_below_nothing_is_the_part() {
    assert_eq!(join("", "vault-1"), "vault-1");
    assert_eq!(join("", ""), "");
}

#[test]
fn join_with_an_absolute_part_is_the_part() {
    assert_eq!(join("vaults", "/tmp/x"), "/tmp/x");
    assert_eq!(join("", "/tmp/x"), "/tmp/x");
}

#[test]
fn join_with_an_empty_part_ends_in_a_slash() {
    assert_eq!(join("vaults", ""), "vaults/");
    assert_eq!(join("vaults/", ""), "vaults/");
}

#[test]
fn join_agrees_with_the_standard_library() {
    let bases = ["", "a", "a/", "/", "/a/b", "./x", "../y/", "with space"];
    let parts = ["", "b", "b/c", "/abs", "/", ".hidden", "vault-12"];
    for base in bases {
        for part in parts {
            let expected = std::path::Path::new(base).join(part);
            assert_eq!(join(base, part), expected.to_str().unwrap(), "{:?} {:?}", base, part);
        }
    }
}

#[test]
fn join_counts_characters_not_bytes() {
    assert_eq!(join("données", "nœud"), "données/nœud");
    assert_eq!(join("données/", "nœud"), "données/nœud");
}
