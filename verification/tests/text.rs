use custody::bytes::{find_byte, same_bytes, to_array};
use custody::db::{DatabaseConnection, PostgresConnection};
use custody::decimal::{parse_u64, to_decimal};
use custody::hex::to_upper_hex;
use custody::secret::redact::Redacted;

#[test]
fn decimal_text_of_numbers() {
    assert_eq!(to_decimal(0), "0");
    assert_eq!(to_decimal(7), "7");
    assert_eq!(to_decimal(10), "10");
    assert_eq!(to_decimal(1_700_000_000), "1700000000");
    assert_eq!(to_decimal(u64::MAX), "18446744073709551615");
    for n in [0u64, 1, 9, 10, 99, 100, 101, 65_535, 4_294_967_296, u64::MAX - 1] {
        assert_eq!(to_decimal(n), n.to_string());
    }
}

#[test]
fn numbers_of_decimal_text() {
    assert_eq!(parse_u64("0"), Some(0));
    assert_eq!(parse_u64("42"), Some(42));
    assert_eq!(parse_u64("+42"), Some(42));
    assert_eq!(parse_u64("0042"), Some(42));
    assert_eq!(parse_u64("+0"), Some(0));
    assert_eq!(parse_u64("18446744073709551615"), Some(u64::MAX));
    assert_eq!(parse_u64("00018446744073709551615"), Some(u64::MAX));
}

#[test]
fn text_that_is_no_number() {
    for text in [
        "", "+", "-", "-1", "-0", "++1", "+-1", "1+", " 1", "1 ", "1_000", "1e3", "0x10", "1.0", "१२३",
        "１２", "18446744073709551616", "99999999999999999999", "184467440737095516150",
    ] {
        assert_eq!(parse_u64(text), None);
        assert_eq!(parse_u64(text), text.parse::<u64>().ok());
    }
}

#[test]
fn reading_agrees_with_the_standard_library() {
    for text in ["0", "+7", "007", "12345678901234567890", "18446744073709551615", "+18446744073709551615"] {
        assert_eq!(parse_u64(text), text.parse::<u64>().ok());
    }
    for n in [0u64, 5, 1 << 32, u64::MAX] {
        assert_eq!(parse_u64(&to_decimal(n)), Some(n));
    }
}

#[test]
fn upper_hex_of_bytes() {
    assert_eq!(to_upper_hex(&[]), "");
    assert_eq!(to_upper_hex(&[0x00]), "00");
    assert_eq!(to_upper_hex(&[0xde, 0xad, 0xbe, 0xef]), "DEADBEEF");
    assert_eq!(to_upper_hex(&[0x01, 0x23, 0x45, 0x67, 0x89, 0xab, 0xcd, 0xef]), "0123456789ABCDEF");
    let all: Vec<u8> = (0u8..=255).collect();
    let expected: String = all.iter().map(|b| format!("{:02X}", b)).collect();
    assert_eq!(to_upper_hex(&all), expected);
}

#[test]
fn bytes_are_compared_and_searched() {
    assert!(same_bytes(&[], &[]));
    assert!(same_bytes(&[1, 2, 3], &[1, 2, 3]));
    assert!(!same_bytes(&[1, 2, 3], &[1, 2, 4]));
    assert!(!same_bytes(&[1, 2, 3], &[1, 2]));
    assert_eq!(find_byte(b"", b':'), None);
    assert_eq!(find_byte(b"abc", b':'), None);
    assert_eq!(find_byte(b":", b':'), Some(0));
    assert_eq!(find_byte(b"ab:cd:ef", b':'), Some(2));
    let bytes: Vec<u8> = (0u8..32).collect();
    assert_eq!(to_array::<32>(&bytes).to_vec(), bytes);
}

fn connection(sslrootcert: Option<&str>) -> PostgresConnection {
    PostgresConnection {
        user: "svc".to_string(),
        dbname: "wallet".to_string(),
        port: 5432,
        password: Redacted::new("p@ss:word".to_string()),
        host: "db.internal".to_string(),
        sslrootcert: sslrootcert.map(str::to_string),
    }
}

#[test]
fn connection_string_of_coordinates() {
    let plain = connection(None).connection_string();
    assert_eq!(plain.expose(), "postgresql://svc:p@ss:word@db.internal:5432/wallet");
    assert_eq!(plain.to_string(), "[REDACTED]");
    let with_cert = connection(Some("/etc/ssl/root.crt")).connection_string();
    assert_eq!(
        with_cert.expose(),
        "postgresql://svc:p@ss:word@db.internal:5432/wallet?sslrootcert=/etc/ssl/root.crt"
    );
}

#[test]
fn connection_string_of_edge_ports() {
    let mut low = connection(None);
    low.port = 0;
    assert_eq!(low.connection_string().expose(), "postgresql://svc:p@ss:word@db.internal:0/wallet");
    let mut high = connection(Some(""));
    high.port = u16::MAX;
    assert_eq!(
        high.connection_string().expose(),
        "postgresql://svc:p@ss:word@db.internal:65535/wallet?sslrootcert="
    );
}
