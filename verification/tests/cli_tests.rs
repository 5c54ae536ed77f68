use upload_server::cli::{parse_args, parse_port, usage, Startup, DEFAULT_PORT};

fn args(list: &[&str]) -> Vec<String> {
    list.iter().map(|s| s.to_string()).collect()
}

#[test]
fn default_port_without_arguments() {
    assert_eq!(DEFAULT_PORT, 8080);
    assert_eq!(parse_args(&args(&["server"])), Startup::Serve { port: 8080 });
    assert_eq!(parse_args(&args(&[])), Startup::Serve { port: 8080 });
}

#[test]
fn port_option_sets_the_port() {
    assert_eq!(parse_args(&args(&["server", "-p", "9000"])), Startup::Serve { port: 9000 });
    assert_eq!(parse_args(&args(&["server", "-p", "0"])), Startup::Serve { port: 0 });
    assert_eq!(parse_args(&args(&["server", "-p", "65535"])), Startup::Serve { port: 65535 });
}

#[test]
fn last_port_wins() {
    assert_eq!(
        parse_args(&args(&["server", "-p", "80", "-p", "90"])),
        Startup::Serve { port: 90 }
    );
}

#[test]
fn non_numeric_port_fails_startup() {
    assert_eq!(parse_args(&args(&["server", "-p", "abc"])), Startup::InvalidPort);
    assert_eq!(parse_args(&args(&["server", "-p", "80a"])), Startup::InvalidPort);
    assert_eq!(parse_args(&args(&["server", "-p", ""])), Startup::InvalidPort);
    assert_eq!(parse_args(&args(&["server", "x", "-p", "8o8o", "-h"])), Startup::InvalidPort);
}

#[test]
fn port_out_of_range_fails_startup() {
    assert_eq!(parse_args(&args(&["server", "-p", "65536"])), Startup::InvalidPort);
    assert_eq!(parse_args(&args(&["server", "-p", "-1"])), Startup::InvalidPort);
    assert_eq!(parse_args(&args(&["server", "-p", "99999999999999999999"])), Startup::InvalidPort);
}

#[test]
fn port_option_without_value() {
    assert_eq!(parse_args(&args(&["server", "-p"])), Startup::MissingPort);
    assert_eq!(parse_args(&args(&["server", "-p", "80", "-p"])), Startup::MissingPort);
}

#[test]
fn help_option() {
    assert_eq!(parse_args(&args(&["server", "-h"])), Startup::Help);
    assert_eq!(parse_args(&args(&["server", "-p", "80", "-h"])), Startup::Help);
}

#[test]
fn first_stopping_argument_decides() {
    assert_eq!(parse_args(&args(&["server", "-h", "-p", "abc"])), Startup::Help);
    assert_eq!(parse_args(&args(&["server", "-p", "abc", "-h"])), Startup::InvalidPort);
    assert_eq!(parse_args(&args(&["server", "-p", "-h"])), Startup::InvalidPort);
    assert_eq!(parse_args(&args(&["server", "-h", "-p"])), Startup::Help);
}

#[test]
fn port_value_is_read_again_as_an_argument() {
    assert_eq!(parse_args(&args(&["server", "-p", "80", "81"])), Startup::Serve { port: 80 });
}

#[test]
fn program_name_is_not_read() {
    assert_eq!(parse_args(&args(&["-h"])), Startup::Serve { port: 8080 });
    assert_eq!(parse_args(&args(&["-p"])), Startup::Serve { port: 8080 });
}

#[test]
fn other_arguments_are_passed_over() {
    assert_eq!(
        parse_args(&args(&["server", "--verbose", "x", "-p", "1234", "y"])),
        Startup::Serve { port: 1234 }
    );
    assert_eq!(parse_args(&args(&["server", "-P", "1234", "-H"])), Startup::Serve { port: 8080 });
}

#[test]
fn parse_port_exact_values() {
    assert_eq!(parse_port("8080"), Some(8080));
    assert_eq!(parse_port("0"), Some(0));
    assert_eq!(parse_port("+443"), Some(443));
    assert_eq!(parse_port("000080"), Some(80));
    assert_eq!(parse_port("65535"), Some(65535));
    assert_eq!(parse_port("65536"), None);
    assert_eq!(parse_port("655350"), None);
    assert_eq!(parse_port(""), None);
    assert_eq!(parse_port("+"), None);
    assert_eq!(parse_port("-"), None);
    assert_eq!(parse_port("-0"), None);
    assert_eq!(parse_port("++1"), None);
    assert_eq!(parse_port(" 80"), None);
    assert_eq!(parse_port("80 "), None);
    assert_eq!(parse_port("8_0"), None);
    assert_eq!(parse_port("0x50"), None);
    assert_eq!(parse_port("\u{664}\u{662}"), None);
    assert_eq!(parse_port("4294967376"), None);
}

#[test]
fn parse_port_agrees_with_the_standard_reading() {
    let samples = [
        "", "+", "-", "0", "1", "9", "10", "080", "+0", "+65535", "+65536", "65535", "65536",
        "70000", "100000", "4294967295", "4294967296", "18446744073709551616", "12a", "a12",
        "1 2", "1.0", "1e3", "-5", "+-5", "5+", "\u{ff11}", "12\n", "\t12",
    ];
    for text in samples {
        assert_eq!(parse_port(text), text.parse::<u16>().ok(), "{:?}", text);
    }
    for value in [0u32, 1, 255, 256, 8080, 65534, 65535, 65536, 65537, 99999] {
        let text = value.to_string();
        assert_eq!(parse_port(&text), text.parse::<u16>().ok());
    }
}

#[test]
fn usage_text() {
    assert_eq!(
        usage(),
        "Usage: \n-p [port number]: Set the port number for the server\n-h: Display this help message"
    );
}
