use random_image::config::Config;
use random_image::decimal::push_decimal;

fn numeral(n: u16) -> String {
    let mut out = String::new();
    push_decimal(&mut out, n);
    out
}

#[test]
fn default_configuration() {
    let config = Config::default();
    assert_eq!(config.host, "0.0.0.0");
    assert_eq!(config.port, 80);
    assert_eq!(config.directory, "images");
}

#[test]
fn new_keeps_its_arguments() {
    let config = Config::new("localhost".to_string(), 3000, "pics".to_string());
    assert_eq!(config.host, "localhost");
    assert_eq!(config.port, 3000);
    assert_eq!(config.directory, "pics");
}

#[test]
fn bind_address_is_host_colon_port() {
    assert_eq!(Config::default().bind_address(), "0.0.0.0:80");
    let config = Config::new("127.0.0.1".to_string(), 65535, "pics".to_string());
    assert_eq!(config.bind_address(), "127.0.0.1:65535");
    let config = Config::new("::1".to_string(), 0, "pics".to_string());
    assert_eq!(config.bind_address(), "::1:0");
}

#[test]
fn decimal_numerals() {
    assert_eq!(numeral(0), "0");
    assert_eq!(numeral(7), "7");
    assert_eq!(numeral(9), "9");
    assert_eq!(numeral(10), "10");
    assert_eq!(numeral(80), "80");
    assert_eq!(numeral(443), "443");
    assert_eq!(numeral(1000), "1000");
    assert_eq!(numeral(8080), "8080");
    assert_eq!(numeral(65535), "65535");
}

#[test]
fn decimal_numerals_agree_with_std() {
    for n in 0..=u16::MAX {
        assert_eq!(numeral(n), n.to_string());
    }
}

#[test]
fn push_decimal_appends() {
    let mut out = "port ".to_string();
    push_decimal(&mut out, 1234);
    assert_eq!(out, "port 1234");
    push_decimal(&mut out, 5);
    assert_eq!(out, "port 12345");
}
