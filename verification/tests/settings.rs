use isuketch::config::{db_settings, parse_port, port_error_report, PortError};

fn std_kind(s: &str) -> Result<u16, String> {
    s.parse::<u16>().map_err(|e| e.to_string())
}

fn ours(s: &str) -> Result<u16, String> {
    parse_port(s).map_err(|e| e.message())
}

#[test]
fn port_parsing_agrees_with_std() {
    let inputs = [
        "", "+", "-", "-0", "+0", "0", "80", "+80", "3306", "00080", "65535", "65536", "065535",
        "99999", "99999a", "a99999", "7000000x", " 80", "80 ", "8 0", "++1", "+-1", "١٢",
        "1٢", "18446744073709551616", "4294967296", "x", "0x50",
    ];
    for s in inputs {
        assert_eq!(ours(s), std_kind(s), "input {:?}", s);
    }
    for n in [0u32, 1, 9, 10, 99, 100, 999, 1000, 9999, 10000, 65534, 65535, 65536, 99999, 100000] {
        let s = n.to_string();
        assert_eq!(ours(&s), std_kind(&s), "input {:?}", s);
    }
}

#[test]
fn port_error_kinds() {
    assert_eq!(parse_port(""), Err(PortError::Empty));
    assert_eq!(parse_port("+"), Err(PortError::InvalidDigit));
    assert_eq!(parse_port("70000a"), Err(PortError::PosOverflow));
    assert_eq!(parse_port("7000a0"), Err(PortError::InvalidDigit));
    assert_eq!(parse_port("3306"), Ok(3306));
}

#[test]
fn port_error_report_text() {
    assert_eq!(
        port_error_report(PortError::InvalidDigit),
        "Failed to read DB port number from an environment variable MYSQL_PORT.\nError: invalid digit found in string"
    );
}

#[test]
fn settings_defaults() {
    let c = db_settings(None, None, None, None).unwrap();
    assert_eq!(c.host, "localhost");
    assert_eq!(c.port, 3306);
    assert_eq!(c.user, "root");
    assert_eq!(c.password, "");
    assert_eq!(c.db_name, "isuketch");
    assert_eq!(c.init, vec!["charset=utf8mb4", "parseTime=true", "loc=Local"]);
}

#[test]
fn settings_from_environment() {
    let c = db_settings(
        Some("mysql".to_string()),
        Some("13306".to_string()),
        Some("isucon".to_string()),
        Some("isucon".to_string()),
    )
    .unwrap();
    assert_eq!(c.host, "mysql");
    assert_eq!(c.port, 13306);
    assert_eq!(c.user, "isucon");
    assert_eq!(c.password, "isucon");
    assert_eq!(c.db_name, "isuketch");
}

#[test]
fn settings_with_bad_port() {
    assert_eq!(db_settings(None, Some("33o6".to_string()), None, None).unwrap_err(), PortError::InvalidDigit);
    assert_eq!(db_settings(None, Some(String::new()), None, None).unwrap_err(), PortError::Empty);
    assert_eq!(db_settings(None, Some("99999".to_string()), None, None).unwrap_err(), PortError::PosOverflow);
}
