use statsd::server::config::{
    flush_ms, graphite_target, oversized, parse_number, usage, Config, ConfigError, Options,
    Startup, Target, DEFAULT_GRAPHITE_PORT, DEFAULT_TCP_PORT, DEFAULT_UDP_PORT, FLUSH_INTERVAL_MS,
    MAX_PACKET_SIZE,
};

fn args(list: &[&str]) -> Vec<Vec<u8>> {
    list.iter().map(|a| a.as_bytes().to_vec()).collect()
}

fn run(list: &[&str]) -> Config {
    match Config::from_args(&args(list)) {
        Startup::Run(c) => c,
        Startup::Usage => panic!("usage"),
        Startup::Failed(e) => panic!("{}", String::from_utf8(e.message()).unwrap()),
    }
}

fn failure(list: &[&str]) -> String {
    match Config::from_args(&args(list)) {
        Startup::Failed(e) => String::from_utf8(e.message()).unwrap(),
        _ => panic!("no failure"),
    }
}

fn target(t: &Option<Target>) -> Option<(String, u16)> {
    t.as_ref().map(|t| (String::from_utf8(t.host.clone()).unwrap(), t.port))
}

#[test]
fn the_defaults() {
    assert_eq!(DEFAULT_UDP_PORT, 8125);
    assert_eq!(DEFAULT_TCP_PORT, 8126);
    assert_eq!(DEFAULT_GRAPHITE_PORT, 2003);
    assert_eq!(FLUSH_INTERVAL_MS, 10000);
    assert_eq!(MAX_PACKET_SIZE, 256);
    let c = run(&[]);
    assert_eq!(target(&c.graphite), None);
    assert!(!c.console);
    assert_eq!((c.port, c.admin_port, c.flush_ms), (8125, 8126, 10000));
}

#[test]
fn a_full_buffer_is_oversized() {
    assert!(oversized(256));
    assert!(!oversized(255));
    assert!(!oversized(0));
    assert!(!oversized(257));
}

#[test]
fn numbers_read_as_std_reads_them() {
    for text in ["0", "1", "007", "8125", "65535", "65536", "+5", "+", "", "-1", "1x", "x1", " 1", "1 ", "99999999999999999999"] {
        let expected = text.parse::<u16>().ok().map(|v| v as u64);
        assert_eq!(parse_number(text.as_bytes(), 65535), expected, "{:?}", text);
    }
    for text in ["18446744073709551615", "18446744073709551616", "18446744073709551614", "0", "+18446744073709551615"] {
        let expected = text.parse::<u64>().ok();
        assert_eq!(parse_number(text.as_bytes(), u64::MAX), expected, "{:?}", text);
    }
    assert_eq!(parse_number(b"10", 9), None);
    assert_eq!(parse_number(b"9", 9), Some(9));
    assert_eq!(parse_number(b"0", 0), Some(0));
    assert_eq!(parse_number(b"1", 0), None);
}

#[test]
fn graphite_target_with_and_without_a_port() {
    let t = graphite_target(b"carbon.example.org").ok().unwrap();
    assert_eq!((t.host, t.port), (b"carbon.example.org".to_vec(), 2003));
    let t = graphite_target(b"localhost:2004").ok().unwrap();
    assert_eq!((t.host, t.port), (b"localhost".to_vec(), 2004));
    let t = graphite_target(b"h:1:ignored").ok().unwrap();
    assert_eq!((t.host, t.port), (b"h".to_vec(), 1));
    let t = graphite_target(b":7").ok().unwrap();
    assert_eq!((t.host, t.port), (Vec::<u8>::new(), 7));
}

#[test]
fn graphite_target_with_a_bad_port() {
    for (arg, port) in [("h:", ""), ("h:x", "x"), ("h:65536", "65536"), ("h::1", "")] {
        match graphite_target(arg.as_bytes()) {
            Err(ConfigError::InvalidPort(t)) => assert_eq!(t, port.as_bytes().to_vec()),
            _ => panic!("{}", arg),
        }
    }
}

#[test]
fn flush_interval_is_counted_in_milliseconds() {
    assert_eq!(flush_ms(b"10"), Some(10000));
    assert_eq!(flush_ms(b"0"), Some(0));
    assert_eq!(flush_ms(b"1"), Some(1000));
    assert_eq!(flush_ms(b"18446744073709551"), Some(18446744073709551000));
    assert_eq!(flush_ms(b"18446744073709552"), None);
    assert_eq!(flush_ms(b"ten"), None);
    assert_eq!(flush_ms(b""), None);
}

#[test]
fn every_flag_is_read() {
    let c = run(&["--graphite", "g.example:2222", "--console", "--port", "9000", "--admin-port", "9001", "--flush", "3"]);
    assert_eq!(target(&c.graphite), Some(("g.example".to_string(), 2222)));
    assert!(c.console);
    assert_eq!((c.port, c.admin_port, c.flush_ms), (9000, 9001, 3000));
    let c = run(&["--flush", "1", "--flush", "2", "free", "--graphite", "h"]);
    assert_eq!(c.flush_ms, 2000);
    assert_eq!(target(&c.graphite), Some(("h".to_string(), 2003)));
    assert!(!c.console);
}

#[test]
fn help_comes_before_bad_values() {
    assert!(matches!(Config::from_args(&args(&["-h"])), Startup::Usage));
    assert!(matches!(Config::from_args(&args(&["--help"])), Startup::Usage));
    assert!(matches!(Config::from_args(&args(&["--port", "x", "--help"])), Startup::Usage));
    assert_eq!(failure(&["--help", "--bogus"]), "Unrecognized option: '--bogus'.");
}

#[test]
fn bad_values_are_named() {
    assert_eq!(failure(&["--port", "70000"]), "Invalid port number: 70000");
    assert_eq!(failure(&["--admin-port", "http"]), "Invalid port number: http");
    assert_eq!(failure(&["--graphite", "host:port"]), "Invalid port number: port");
    assert_eq!(failure(&["--flush", "soon"]), "Invalid integer: soon");
    assert_eq!(failure(&["--flush", "soon", "--port", "x"]), "Invalid port number: x");
    assert_eq!(failure(&["--graphite", "h:x", "--port", "y"]), "Invalid port number: x");
    assert_eq!(failure(&["--admin-port", "a", "--port", "b"]), "Invalid port number: b");
}

#[test]
fn bad_command_lines_are_named() {
    assert_eq!(failure(&["--verbose"]), "Unrecognized option: '--verbose'.");
    assert_eq!(failure(&["-x"]), "Unrecognized option: '-x'.");
    assert_eq!(failure(&["--port"]), "Argument to option '--port' missing.");
    assert_eq!(failure(&["--console", "--graphite"]), "Argument to option '--graphite' missing.");
}

#[test]
fn options_keep_the_texts() {
    let o = Options::scan(&args(&["--port", "--help", "x", "--console"])).ok().unwrap();
    assert!(!o.help);
    assert!(o.console);
    assert_eq!(o.port, Some(b"--help".to_vec()));
    assert_eq!(o.graphite, None);
    assert_eq!(o.admin_port, None);
    assert_eq!(o.flush, None);
}

#[test]
fn usage_names_every_flag_and_default() {
    let text = String::from_utf8(usage(b"statsd")).unwrap();
    let expected = "Usage: statsd [options]\n  -h --help               Show usage information\n  --graphite host[:port]  Enable the graphite backend. Port will default to 2003 if not specified.\n  --console               Enable console output.\n  --port port             Have the statsd server listen on this UDP port. Defaults to 8125.\n  --admin-port port       Have the admin server listen on this TCP port. Defaults to 8126.\n  --flush                 Flush interval, in seconds. Defaults to 10.\n";
    assert_eq!(text, expected);
}
