use opensase_payments::service::{
    currency_or_default, fresh_reference, minor_units, page_window, refund_units,
    transaction_reference, Config, InitiatePaymentResponse, PageWindow, PaginatedResponse,
    DEFAULT_PORT,
};
use opensase_payments::unique::fresh_time_ordered_uuid;

#[test]
fn port_defaults_to_8084() {
    assert_eq!(DEFAULT_PORT, 8084);
    assert_eq!(Config::port_from(None), 8084);
    assert_eq!(Config::port_from(Some("")), 8084);
    assert_eq!(Config::port_from(Some("http")), 8084);
    assert_eq!(Config::port_from(Some("65536")), 8084);
    assert_eq!(Config::port_from(Some("-1")), 8084);
    assert_eq!(Config::port_from(Some(" 80")), 8084);
    assert_eq!(Config::port_from(Some("80 ")), 8084);
    assert_eq!(Config::port_from(Some("+")), 8084);
    assert_eq!(Config::port_from(Some("-")), 8084);
    assert_eq!(Config::port_from(Some("-0")), 8084);
    assert_eq!(Config::port_from(Some("++1")), 8084);
    assert_eq!(Config::port_from(Some("+-1")), 8084);
    assert_eq!(Config::port_from(Some("1+")), 8084);
    assert_eq!(Config::port_from(Some("3_000")), 8084);
    assert_eq!(Config::port_from(Some("0x50")), 8084);
    assert_eq!(Config::port_from(Some("80.0")), 8084);
    assert_eq!(Config::port_from(Some("\u{663}\u{660}")), 8084);
    assert_eq!(Config::port_from(Some("\u{ff18}\u{ff10}")), 8084);
    assert_eq!(Config::port_from(Some("99999")), 8084);
    assert_eq!(Config::port_from(Some("0000000000000065536")), 8084);
    assert_eq!(Config::port_from(Some("18446744073709551616")), 8084);
    assert_eq!(Config::port_or_default(None), 8084);
}

#[test]
fn port_is_parsed_where_it_is_one() {
    assert_eq!(Config::port_from(Some("3000")), 3000);
    assert_eq!(Config::port_from(Some("0")), 0);
    assert_eq!(Config::port_from(Some("65535")), 65535);
    assert_eq!(Config::port_from(Some("+443")), 443);
    assert_eq!(Config::port_from(Some("08084")), 8084);
    assert_eq!(Config::port_from(Some("+0")), 0);
    assert_eq!(Config::port_from(Some("000")), 0);
    assert_eq!(Config::port_from(Some("+65535")), 65535);
    assert_eq!(Config::port_from(Some("0000000000000065535")), 65535);
    assert_eq!(Config::port_from(Some("7")), 7);
    assert_eq!(Config::port_or_default(Some(1)), 1);
}

#[test]
fn port_parsing_reads_digits_in_base_ten() {
    for port in [0u16, 1, 9, 10, 99, 100, 443, 1024, 8084, 9999, 10000, 65534, 65535] {
        assert_eq!(Config::port_from(Some(&port.to_string())), port);
        assert_eq!(Config::port_from(Some(&format!("+{}", port))), port);
        assert_eq!(Config::port_from(Some(&format!("00{}", port))), port);
    }
    for above in [65536u32, 65540, 70000, 100000, 655350] {
        assert_eq!(Config::port_from(Some(&above.to_string())), 8084);
    }
}

#[test]
fn config_from_values_keeps_the_values() {
    let c = Config::from_values(
        Some("9000"),
        "postgres://localhost/payments".to_string(),
        Some("nats://localhost:4222".to_string()),
        None,
        Some("key-for-tests".to_string()),
    );
    assert_eq!(c.port, 9000);
    assert_eq!(c.database_url, "postgres://localhost/payments");
    assert_eq!(c.nats_url.as_deref(), Some("nats://localhost:4222"));
    assert!(c.paystack_secret.is_none());
    assert_eq!(c.flutterwave_secret.as_deref(), Some("key-for-tests"));
    let d = Config::from_values(None, String::new(), None, None, None);
    assert_eq!(d.port, 8084);
}

#[test]
fn page_window_defaults() {
    assert_eq!(page_window(None, None), PageWindow { page: 1, per_page: 20, offset: 0 });
}

#[test]
fn page_window_counts_pages_from_one() {
    assert_eq!(page_window(Some(0), None), PageWindow { page: 1, per_page: 20, offset: 0 });
    assert_eq!(page_window(Some(1), Some(50)), PageWindow { page: 1, per_page: 50, offset: 0 });
    assert_eq!(page_window(Some(3), Some(25)), PageWindow { page: 3, per_page: 25, offset: 50 });
}

#[test]
fn page_window_caps_the_page_length() {
    assert_eq!(page_window(Some(2), Some(100)), PageWindow { page: 2, per_page: 100, offset: 100 });
    assert_eq!(page_window(Some(2), Some(101)), PageWindow { page: 2, per_page: 100, offset: 100 });
    assert_eq!(page_window(Some(7), Some(0)), PageWindow { page: 7, per_page: 0, offset: 0 });
    assert_eq!(
        page_window(Some(u32::MAX), Some(u32::MAX)),
        PageWindow { page: u32::MAX, per_page: 100, offset: 429_496_729_400 }
    );
}

#[test]
fn paginated_response_takes_page_and_length_from_the_window() {
    let w = page_window(Some(2), Some(3));
    let r = PaginatedResponse::new(vec!["d", "e", "f"], 11, w);
    assert_eq!(r.data, vec!["d", "e", "f"]);
    assert_eq!(r.total, 11);
    assert_eq!(r.page, 2);
    assert_eq!(r.per_page, 3);
}

#[test]
fn minor_units_have_two_decimal_places() {
    let d = minor_units(12345);
    assert_eq!(d.mantissa(), 12345);
    assert_eq!(d.scale(), 2);
    assert_eq!(minor_units(-1).mantissa(), -1);
    assert_eq!(minor_units(i64::MAX).mantissa(), i64::MAX as i128);
}

#[test]
fn refund_units_default_to_nothing() {
    assert_eq!(refund_units(None).mantissa(), 0);
    assert_eq!(refund_units(None).scale(), 2);
    assert_eq!(refund_units(Some(250)).mantissa(), 250);
    assert_eq!(refund_units(Some(250)).scale(), 2);
}

#[test]
fn transaction_reference_has_the_prefix() {
    assert_eq!(transaction_reference("abc"), "TXN-abc");
    assert_eq!(transaction_reference(""), "TXN-");
}

#[test]
fn fresh_reference_is_prefix_and_uuid() {
    let r = fresh_reference();
    assert_eq!(r.len(), 40);
    assert!(r.starts_with("TXN-"));
    assert_eq!(r.as_bytes()[4 + 8], b'-');
    assert_eq!(r.as_bytes()[4 + 14], b'7');
    assert_ne!(r, fresh_reference());
}

#[test]
fn time_ordered_uuid_is_hyphenated_lower_hex() {
    let u = fresh_time_ordered_uuid();
    assert_eq!(u.len(), 36);
    for (i, c) in u.chars().enumerate() {
        if i == 8 || i == 13 || i == 18 || i == 23 {
            assert_eq!(c, '-');
        } else {
            assert!(c.is_ascii_digit() || ('a'..='f').contains(&c));
        }
    }
}

#[test]
fn currency_defaults_to_naira() {
    assert_eq!(currency_or_default(None), "NGN");
    assert_eq!(currency_or_default(Some("USD")), "USD");
}

#[test]
fn pending_response_points_to_the_checkout() {
    let r = InitiatePaymentResponse::pending("TXN-1".to_string());
    assert_eq!(r.reference, "TXN-1");
    assert_eq!(r.authorization_url.as_deref(), Some("https://checkout.paystack.com/TXN-1"));
    assert_eq!(r.status, "pending");
}
