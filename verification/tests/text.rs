use air_combat::text::push_decimal;

fn render(n: u32) -> String {
    let mut s = String::from("x");
    push_decimal(&mut s, n);
    s
}

#[test]
fn decimal_single_digits() {
    assert_eq!(render(0), "x0");
    assert_eq!(render(7), "x7");
    assert_eq!(render(9), "x9");
}

#[test]
fn decimal_reads_back() {
    for n in [10u32, 99, 100, 1009, 65535, 4294967295] {
        let s = render(n);
        assert_eq!(s[1..].parse::<u32>().unwrap(), n);
        assert_eq!(s[1..], n.to_string());
    }
}
