use mcp_server::config::{
    parse_port, Config, Environment, DATABASE_URL_VARIABLE, DEFAULT_PORT,
    INTELLIGENCE_SERVICE_URL_VARIABLE, JWT_SECRET_VARIABLE, MEMORY_SERVICE_URL_VARIABLE,
    PORT_VARIABLE,
};

fn empty() -> Environment {
    Environment {
        port: None,
        memory_service_url: None,
        intelligence_service_url: None,
        jwt_secret: None,
        database_url: None,
    }
}

#[test]
fn variable_names() {
    assert_eq!(PORT_VARIABLE, "PORT");
    assert_eq!(MEMORY_SERVICE_URL_VARIABLE, "MEMORY_SERVICE_URL");
    assert_eq!(INTELLIGENCE_SERVICE_URL_VARIABLE, "INTELLIGENCE_SERVICE_URL");
    assert_eq!(JWT_SECRET_VARIABLE, "JWT_SECRET");
    assert_eq!(DATABASE_URL_VARIABLE, "DATABASE_URL");
}

#[test]
fn empty_environment_gives_the_defaults() {
    assert_eq!(DEFAULT_PORT, 7000);
    assert_eq!(
        Config::from_env(&empty()),
        Some(Config {
            port: 7000,
            memory_service_url: "http://memory:8001".to_string(),
            intelligence_service_url: "http://intelligence:8000".to_string(),
            jwt_secret: "your-secret-key".to_string(),
            database_url: None,
        })
    );
}

#[test]
fn settings_override_the_defaults() {
    let env = Environment {
        port: Some("8080".to_string()),
        memory_service_url: Some("http://localhost:1".to_string()),
        intelligence_service_url: Some("http://localhost:2".to_string()),
        jwt_secret: Some("s3".to_string()),
        database_url: Some("postgres://db".to_string()),
    };
    assert_eq!(
        Config::from_env(&env),
        Some(Config {
            port: 8080,
            memory_service_url: "http://localhost:1".to_string(),
            intelligence_service_url: "http://localhost:2".to_string(),
            jwt_secret: "s3".to_string(),
            database_url: Some("postgres://db".to_string()),
        })
    );
}

#[test]
fn unusable_port_gives_no_settings() {
    for port in ["", "http", "-1", "65536", "70 00", " 7000", "7000 ", "0x10", "+", "7e3"] {
        let mut env = empty();
        env.port = Some(port.to_string());
        assert_eq!(Config::from_env(&env), None, "port {:?}", port);
    }
}

#[test]
fn ports_are_read_as_std_reads_them() {
    let cases = [
        "0", "1", "80", "7000", "65535", "65536", "65540", "99999", "100000", "+80", "+0", "++80", "-80", "-0",
        "+-1", "0080", "000000000000000065535", "000000000000000065536", "", "+", "-", " ", "8 0", "80\n", "٣",
        "８０", "1_0", "4294967296", "18446744073709551616", "655350",
    ];
    for text in cases {
        assert_eq!(parse_port(text.as_bytes()), text.parse::<u16>().ok(), "text {:?}", text);
    }
}

#[test]
fn every_port_number_reads_back() {
    for port in 0..=u16::MAX {
        assert_eq!(parse_port(port.to_string().as_bytes()), Some(port));
    }
}

#[test]
fn bytes_that_are_not_text_write_no_port() {
    assert_eq!(parse_port(&[0xff, 0x30]), None);
    assert_eq!(parse_port(&[0x30, 0x00]), None);
    assert_eq!(parse_port(&[0x38, 0x30]), Some(80));
}
