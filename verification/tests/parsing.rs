use stat_dists::Fixed;

fn fx(h: i64) -> Fixed {
    Fixed::from_hundredths(h)
}

#[test]
fn parse_reads_integers() {
    assert_eq!(Fixed::parse("0"), Some(fx(0)));
    assert_eq!(Fixed::parse("3"), Some(fx(300)));
    assert_eq!(Fixed::parse("10"), Some(fx(1000)));
    assert_eq!(Fixed::parse("007"), Some(fx(700)));
}

#[test]
fn parse_reads_fractions() {
    assert_eq!(Fixed::parse("3.14"), Some(fx(314)));
    assert_eq!(Fixed::parse("0.5"), Some(fx(50)));
    assert_eq!(Fixed::parse("123.45"), Some(fx(12345)));
    assert_eq!(Fixed::parse("2.00"), Some(fx(200)));
}

#[test]
fn parse_reads_signs() {
    assert_eq!(Fixed::parse("-0.5"), Some(fx(-50)));
    assert_eq!(Fixed::parse("+2.50"), Some(fx(250)));
    assert_eq!(Fixed::parse("-7"), Some(fx(-700)));
}

#[test]
fn parse_rejects_malformed_text() {
    assert_eq!(Fixed::parse(""), None);
    assert_eq!(Fixed::parse("."), None);
    assert_eq!(Fixed::parse("1."), None);
    assert_eq!(Fixed::parse(".5"), None);
    assert_eq!(Fixed::parse("-"), None);
    assert_eq!(Fixed::parse("+"), None);
    assert_eq!(Fixed::parse("1.234"), None);
    assert_eq!(Fixed::parse("1.2.3"), None);
    assert_eq!(Fixed::parse("abc"), None);
    assert_eq!(Fixed::parse("1x"), None);
    assert_eq!(Fixed::parse("1 2"), None);
    assert_eq!(Fixed::parse("--1"), None);
}

#[test]
fn parse_rejects_values_out_of_range() {
    assert_eq!(Fixed::parse("99999999999999999999"), None);
    assert_eq!(Fixed::parse("92233720368547758.08"), None);
    assert_eq!(Fixed::parse("-92233720368547758.09"), None);
}

#[test]
fn parse_accepts_the_extreme_representable_values() {
    assert_eq!(Fixed::parse("92233720368547758.07"), Some(fx(i64::MAX)));
    assert_eq!(Fixed::parse("-92233720368547758.08"), Some(fx(i64::MIN)));
}

#[test]
fn parse_inverts_format() {
    for h in [0i64, 7, 70, 100, 314, 12345, -1, -50, -12300, i64::MAX, i64::MIN] {
        let x = fx(h);
        assert_eq!(Fixed::parse(x.format().as_str()), Some(x));
    }
}
