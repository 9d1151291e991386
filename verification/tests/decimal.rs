use buildah_rs::decimal::decimal_string;

#[test]
fn single_digits() {
    let digits = ["0", "1", "2", "3", "4", "5", "6", "7", "8", "9"];
    for (n, digit) in digits.iter().enumerate() {
        assert_eq!(decimal_string(n as u16), *digit);
    }
}

#[test]
fn no_leading_zeros() {
    assert_eq!(decimal_string(10), "10");
    assert_eq!(decimal_string(100), "100");
    assert_eq!(decimal_string(1001), "1001");
    assert_eq!(decimal_string(8080), "8080");
    assert_eq!(decimal_string(65535), "65535");
}

#[test]
fn decimal_reads_back() {
    let mut n: u16 = 0;
    loop {
        assert_eq!(decimal_string(n).parse::<u16>().unwrap(), n);
        if n == u16::MAX {
            break;
        }
        n += 1;
    }
}
