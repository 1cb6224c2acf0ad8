use find_nas::addresses::collect_addresses;

fn strings(v: &[&str]) -> Vec<String> {
    v.iter().map(|s| s.to_string()).collect()
}

#[test]
fn addresses_in_interface_order() {
    let ifaces = vec![
        strings(&["127.0.0.1/8", "::1/128"]),
        strings(&[]),
        strings(&["10.0.0.5/24", "fe80::1/64", "10.0.0.5/24"]),
    ];
    let r = collect_addresses(ifaces);
    assert_eq!(r, strings(&["127.0.0.1/8", "::1/128", "10.0.0.5/24", "fe80::1/64", "10.0.0.5/24"]));
}

#[test]
fn no_interfaces_gives_empty() {
    assert!(collect_addresses(Vec::new()).is_empty());
}

#[test]
fn interfaces_without_addresses_give_empty() {
    assert!(collect_addresses(vec![Vec::new(), Vec::new()]).is_empty());
}

#[test]
fn count_equals_total() {
    let ifaces = vec![strings(&["a", "b"]), strings(&["c"]), strings(&["d", "e", "f"])];
    assert_eq!(collect_addresses(ifaces).len(), 6);
}
