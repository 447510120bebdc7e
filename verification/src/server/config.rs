//! The daemon's configuration: its command line and what each value means.

use vstd::prelude::*;
use crate::text::{
    copy_range,
    decimal,
    decimal_digits,
    find_from,
    first_index,
    lit,
    push_bytes,
    push_unsigned,
    same,
};

verus! {

/// The port of the metrics listener where none is given.
pub const DEFAULT_UDP_PORT: u16 = 8125;

/// The port of the management listener where none is given.
pub const DEFAULT_TCP_PORT: u16 = 8126;

/// The port of Graphite where the host is given without one.
pub const DEFAULT_GRAPHITE_PORT: u16 = 2003;

/// The time between two flushes where none is given, in milliseconds.
pub const FLUSH_INTERVAL_MS: u64 = 10000;

/// The most bytes that are read of one datagram.
pub const MAX_PACKET_SIZE: usize = 256;

/// Whether a datagram of `nread` bytes filled the whole buffer, so that it
/// may have been cut short.
pub fn oversized(nread: usize) -> (r: bool)
    ensures
        r == (nread == MAX_PACKET_SIZE),
{
    nread == MAX_PACKET_SIZE
}

/// The number that a run of decimal digits writes; none for an empty run
/// and for a run with any other byte in it.
pub open spec fn digits_value(s: Seq<u8>) -> Option<nat>
    decreases s.len(),
{
    if s.len() == 0 {
        None
    } else if !(48 <= s.last() && s.last() <= 57) {
        None
    } else if s.len() == 1 {
        Some((s.last() - 48) as nat)
    } else {
        match digits_value(s.drop_last()) {
            Some(v) => Some(v * 10 + (s.last() - 48) as nat),
            None => None,
        }
    }
}

/// The number that a piece of text writes, where it is at most `max`: a run
/// of decimal digits, which one `+` may precede.
pub open spec fn spec_number(s: Seq<u8>, max: nat) -> Option<nat> {
    let digits = if s.len() > 0 && s[0] == 43 {
        s.skip(1)
    } else {
        s
    };
    match digits_value(digits) {
        Some(v) => if v <= max {
            Some(v)
        } else {
            None
        },
        None => None,
    }
}

/// A run of digits writes at least what each of its beginnings writes, and
/// writes nothing once a beginning of it does not.
proof fn lemma_digits_prefix(s: Seq<u8>, k: int)
    requires
        1 <= k <= s.len(),
    ensures
        match digits_value(s) {
            Some(v) => match digits_value(s.take(k)) {
                Some(w) => w <= v,
                None => false,
            },
            None => true,
        },
    decreases s.len(),
{
    if k == s.len() {
        assert(s.take(k) =~= s);
    } else {
        assert(s.drop_last().take(k) =~= s.take(k));
        lemma_digits_prefix(s.drop_last(), k);
    }
}

/// What a number renders to, reads back as that number.
pub proof fn lemma_digits_round_trip(n: nat)
    ensures
        digits_value(decimal_digits(n)) == Some(n),
    decreases n,
{
    let text = decimal_digits(n);
    if n >= 10 {
        lemma_digits_round_trip(n / 10);
        assert(text.drop_last() =~= decimal_digits(n / 10));
        assert(text.last() == (48 + n % 10) as u8);
        lemma_digits_nonempty(n / 10);
    }
}

/// Every number renders to at least one digit.
proof fn lemma_digits_nonempty(n: nat)
    ensures
        decimal_digits(n).len() >= 1,
    decreases n,
{
    if n >= 10 {
        lemma_digits_nonempty(n / 10);
    }
}

/// Reads a number of at most `max`.
pub fn parse_number(text: &[u8], max: u64) -> (r: Option<u64>)
    ensures
        match r {
            Some(v) => spec_number(text@, max as nat) == Some(v as nat),
            None => spec_number(text@, max as nat) is None,
        },
{
    let start: usize = if text.len() > 0 && text[0] == 43 {
        1
    } else {
        0
    };
    let ghost digits = text@.skip(start as int);
    proof {
        assert(text@.skip(0) =~= text@);
    }
    if start == text.len() {
        return None;
    }
    let mut acc: u64 = 0;
    let mut i: usize = start;
    while i < text.len()
        invariant
            start <= i <= text.len(),
            start < text.len(),
            digits == text@.skip(start as int),
            digits == if text@.len() > 0 && text@[0] == 43 {
                text@.skip(1)
            } else {
                text@
            },
            acc <= max,
            i > start ==> digits_value(digits.take(i - start)) == Some(acc as nat),
            i == start ==> acc == 0,
        decreases text.len() - i,
    {
        let b: u8 = text[i];
        let ghost upto = digits.take(i - start + 1);
        proof {
            assert(upto.last() == b);
            assert(upto.drop_last() =~= digits.take(i - start));
        }
        if b < 48 || b > 57 {
            proof {
                lemma_digits_prefix(digits, i - start + 1);
            }
            return None;
        }
        let d: u64 = (b - 48) as u64;
        if d > max || acc > (max - d) / 10 {
            proof {
                assert(acc * 10 + d > max) by (nonlinear_arith)
                    requires
                        d > max || acc > (max - d) / 10,
                        d <= 9,
                ;
                lemma_digits_prefix(digits, i - start + 1);
            }
            return None;
        }
        proof {
            assert(acc * 10 + d <= max) by (nonlinear_arith)
                requires
                    acc <= (max - d) / 10,
                    d <= max,
            ;
        }
        acc = acc * 10 + d;
        i += 1;
    }
    proof {
        assert(digits.take(text.len() - start) =~= digits);
    }
    Some(acc)
}

/// Where Graphite is: a host, and a port.
pub struct Target {
    pub host: Vec<u8>,
    pub port: u16,
}

/// What is wrong with a command line.
pub enum ConfigError {
    /// An argument begins with `-` and is no option of the daemon.
    UnknownOption(Vec<u8>),
    /// An option that takes a value is the last argument.
    MissingArgument(Vec<u8>),
    /// A port is no number that a port can be.
    InvalidPort(Vec<u8>),
    /// A flush interval is no number, or too large to count in milliseconds.
    InvalidInteger(Vec<u8>),
}

/// The mathematical value of a `ConfigError`.
pub enum ConfigErrorView {
    UnknownOption(Seq<u8>),
    MissingArgument(Seq<u8>),
    InvalidPort(Seq<u8>),
    InvalidInteger(Seq<u8>),
}

impl View for ConfigError {
    type V = ConfigErrorView;

    open spec fn view(&self) -> ConfigErrorView {
        match self {
            ConfigError::UnknownOption(t) => ConfigErrorView::UnknownOption(t@),
            ConfigError::MissingArgument(t) => ConfigErrorView::MissingArgument(t@),
            ConfigError::InvalidPort(t) => ConfigErrorView::InvalidPort(t@),
            ConfigError::InvalidInteger(t) => ConfigErrorView::InvalidInteger(t@),
        }
    }
}

/// The line that tells the operator of an error.
pub open spec fn error_text(e: ConfigErrorView) -> Seq<u8> {
    match e {
        ConfigErrorView::UnknownOption(t) => lit("Unrecognized option: '") + t + lit("'."),
        ConfigErrorView::MissingArgument(t) => lit("Argument to option '") + t + lit(
            "' missing.",
        ),
        ConfigErrorView::InvalidPort(t) => lit("Invalid port number: ") + t,
        ConfigErrorView::InvalidInteger(t) => lit("Invalid integer: ") + t,
    }
}

impl ConfigError {
    /// The line that tells the operator of this error.
    pub fn message(&self) -> (r: Vec<u8>)
        ensures
            r@ == error_text(self@),
    {
        let mut out: Vec<u8> = Vec::new();
        match self {
            ConfigError::UnknownOption(t) => {
                push_bytes(&mut out, "Unrecognized option: '".as_bytes());
                push_bytes(&mut out, t.as_slice());
                push_bytes(&mut out, "'.".as_bytes());
            },
            ConfigError::MissingArgument(t) => {
                push_bytes(&mut out, "Argument to option '".as_bytes());
                push_bytes(&mut out, t.as_slice());
                push_bytes(&mut out, "' missing.".as_bytes());
            },
            ConfigError::InvalidPort(t) => {
                push_bytes(&mut out, "Invalid port number: ".as_bytes());
                push_bytes(&mut out, t.as_slice());
            },
            ConfigError::InvalidInteger(t) => {
                push_bytes(&mut out, "Invalid integer: ".as_bytes());
                push_bytes(&mut out, t.as_slice());
            },
        }
        proof {
            assert(out@ =~= error_text(self@));
        }
        out
    }
}

/// The host of a `host[:port]` value: what stands before the first `:`.
pub open spec fn target_host(arg: Seq<u8>) -> Seq<u8> {
    match first_index(arg, 58) {
        Some(colon) => arg.take(colon),
        None => arg,
    }
}

/// The port text of a `host[:port]` value: what stands between the first
/// `:` and the next, if there is a `:`.
pub open spec fn target_port(arg: Seq<u8>) -> Option<Seq<u8>> {
    match first_index(arg, 58) {
        Some(colon) => {
            let after = arg.skip(colon + 1);
            match first_index(after, 58) {
                Some(next) => Some(after.take(next)),
                None => Some(after),
            }
        },
        None => None,
    }
}

/// Where a `host[:port]` value says Graphite is. Without a port it is the
/// default one; a port that is no number of 16 bits is an error that names
/// its text.
pub open spec fn spec_target(arg: Seq<u8>) -> Result<(Seq<u8>, u16), ConfigErrorView> {
    match target_port(arg) {
        None => Ok((target_host(arg), DEFAULT_GRAPHITE_PORT)),
        Some(text) => match spec_number(text, u16::MAX as nat) {
            Some(port) => Ok((target_host(arg), port as u16)),
            None => Err(ConfigErrorView::InvalidPort(text)),
        },
    }
}

/// Reads a `host[:port]` value.
pub fn graphite_target(arg: &[u8]) -> (r: Result<Target, ConfigError>)
    ensures
        match r {
            Ok(t) => spec_target(arg@) == Ok::<_, ConfigErrorView>((t.host@, t.port)),
            Err(e) => spec_target(arg@) == Err::<(Seq<u8>, u16), _>(e@),
        },
{
    proof {
        assert(arg@.skip(0) =~= arg@);
    }
    let colon: usize = match find_from(arg, 0, 58) {
        Some(p) => p,
        None => {
            let host = copy_range(arg, 0, arg.len());
            proof {
                assert(host@ =~= arg@);
            }
            return Ok(Target { host, port: DEFAULT_GRAPHITE_PORT });
        },
    };
    let host = copy_range(arg, 0, colon);
    let end: usize = match find_from(arg, colon + 1, 58) {
        Some(p) => p,
        None => arg.len(),
    };
    let text = copy_range(arg, colon + 1, end);
    proof {
        let after = arg@.skip(colon + 1);
        assert(host@ =~= arg@.take(colon as int));
        assert(text@ =~= target_port(arg@).unwrap()) by {
            if end < arg.len() {
                assert(text@ =~= after.take(end - colon - 1));
            } else {
                assert(text@ =~= after);
            }
        }
    }
    match parse_number(text.as_slice(), 65535) {
        Some(port) => Ok(Target { host, port: port as u16 }),
        None => Err(ConfigError::InvalidPort(text)),
    }
}

/// The milliseconds of a flush interval given in seconds, where they fit
/// in 64 bits.
pub open spec fn spec_flush_ms(text: Seq<u8>) -> Option<u64> {
    match spec_number(text, (u64::MAX / 1000) as nat) {
        Some(secs) => Some((secs * 1000) as u64),
        None => None,
    }
}

/// Reads a flush interval in seconds and answers it in milliseconds.
pub fn flush_ms(text: &[u8]) -> (r: Option<u64>)
    ensures
        r == spec_flush_ms(text@),
{
    match parse_number(text, u64::MAX / 1000) {
        Some(secs) => Some(secs * 1000),
        None => None,
    }
}

/// What the command line says, each value still as text.
pub struct Options {
    pub help: bool,
    pub graphite: Option<Vec<u8>>,
    pub console: bool,
    pub port: Option<Vec<u8>>,
    pub admin_port: Option<Vec<u8>>,
    pub flush: Option<Vec<u8>>,
}

/// The mathematical value of an `Options`.
pub struct OptionsView {
    pub help: bool,
    pub graphite: Option<Seq<u8>>,
    pub console: bool,
    pub port: Option<Seq<u8>>,
    pub admin_port: Option<Seq<u8>>,
    pub flush: Option<Seq<u8>>,
}

/// The value of an optional text.
pub open spec fn text_view(t: Option<Vec<u8>>) -> Option<Seq<u8>> {
    match t {
        Some(t) => Some(t@),
        None => None,
    }
}

impl View for Options {
    type V = OptionsView;

    open spec fn view(&self) -> OptionsView {
        OptionsView {
            help: self.help,
            graphite: text_view(self.graphite),
            console: self.console,
            port: text_view(self.port),
            admin_port: text_view(self.admin_port),
            flush: text_view(self.flush),
        }
    }
}

/// A command line that says nothing.
pub open spec fn no_options() -> OptionsView {
    OptionsView {
        help: false,
        graphite: None,
        console: false,
        port: None,
        admin_port: None,
        flush: None,
    }
}

/// Whether `arg` is an option that the next argument is the value of.
pub open spec fn takes_value(arg: Seq<u8>) -> bool {
    arg == lit("--graphite") || arg == lit("--port") || arg == lit("--admin-port") || arg == lit(
        "--flush",
    )
}

/// The options `found` with `value` noted for the option `name`.
pub open spec fn with_value(found: OptionsView, name: Seq<u8>, value: Seq<u8>) -> OptionsView {
    if name == lit("--graphite") {
        OptionsView { graphite: Some(value), ..found }
    } else if name == lit("--port") {
        OptionsView { port: Some(value), ..found }
    } else if name == lit("--admin-port") {
        OptionsView { admin_port: Some(value), ..found }
    } else {
        OptionsView { flush: Some(value), ..found }
    }
}

/// What the arguments `args` add to the options `found`, read from the
/// left. `-h` and `--help` ask for the usage text, `--console` enables the
/// console, and each of the four options with a value takes the argument
/// after it; where one is given twice, the later value stands. Any other
/// argument that begins with `-` is an error, and so is an option with no
/// argument after it. Other arguments are passed over.
pub open spec fn spec_scan(args: Seq<Seq<u8>>, found: OptionsView) -> Result<
    OptionsView,
    ConfigErrorView,
>
    decreases args.len(),
{
    if args.len() == 0 {
        Ok(found)
    } else {
        let arg = args[0];
        if arg == lit("-h") || arg == lit("--help") {
            spec_scan(args.skip(1), OptionsView { help: true, ..found })
        } else if arg == lit("--console") {
            spec_scan(args.skip(1), OptionsView { console: true, ..found })
        } else if takes_value(arg) {
            if args.len() < 2 {
                Err(ConfigErrorView::MissingArgument(arg))
            } else {
                spec_scan(args.skip(2), with_value(found, arg, args[1]))
            }
        } else if arg.len() > 0 && arg[0] == 45 {
            Err(ConfigErrorView::UnknownOption(arg))
        } else {
            spec_scan(args.skip(1), found)
        }
    }
}

/// A copy of `text`.
fn copy_of(text: &Vec<u8>) -> (r: Vec<u8>)
    ensures
        r@ == text@,
{
    let r = copy_range(text.as_slice(), 0, text.len());
    proof {
        assert(r@ =~= text@);
    }
    r
}

impl Options {
    /// Reads the arguments of a command line, the program's name left out.
    pub fn scan(args: &Vec<Vec<u8>>) -> (r: Result<Options, ConfigError>)
        ensures
            match r {
                Ok(o) => spec_scan(args.deep_view(), no_options()) == Ok::<_, ConfigErrorView>(
                    o@,
                ),
                Err(e) => spec_scan(args.deep_view(), no_options()) == Err::<OptionsView, _>(e@),
            },
    {
        let ghost all = args.deep_view();
        let mut found = Options {
            help: false,
            graphite: None,
            console: false,
            port: None,
            admin_port: None,
            flush: None,
        };
        let mut i: usize = 0;
        proof {
            assert(all.skip(0) =~= all);
        }
        while i < args.len()
            invariant
                0 <= i <= args@.len(),
                all == args.deep_view(),
                all.len() == args@.len(),
                spec_scan(all, no_options()) == spec_scan(all.skip(i as int), found@),
            decreases args@.len() - i,
        {
            let arg = &args[i];
            let ghost rest = all.skip(i as int);
            proof {
                assert(rest[0] == arg@);
                assert(rest.skip(1) =~= all.skip(i + 1));
            }
            if same(arg.as_slice(), "-h".as_bytes()) || same(arg.as_slice(), "--help".as_bytes()) {
                found.help = true;
                i += 1;
            } else if same(arg.as_slice(), "--console".as_bytes()) {
                found.console = true;
                i += 1;
            } else if same(arg.as_slice(), "--graphite".as_bytes()) || same(
                arg.as_slice(),
                "--port".as_bytes(),
            ) || same(arg.as_slice(), "--admin-port".as_bytes()) || same(
                arg.as_slice(),
                "--flush".as_bytes(),
            ) {
                if i + 1 >= args.len() {
                    return Err(ConfigError::MissingArgument(copy_of(arg)));
                }
                let value = copy_of(&args[i + 1]);
                proof {
                    assert(rest[1] == value@);
                    assert(rest.skip(2) =~= all.skip(i + 2));
                }
                if same(arg.as_slice(), "--graphite".as_bytes()) {
                    found.graphite = Some(value);
                } else if same(arg.as_slice(), "--port".as_bytes()) {
                    found.port = Some(value);
                } else if same(arg.as_slice(), "--admin-port".as_bytes()) {
                    found.admin_port = Some(value);
                } else {
                    found.flush = Some(value);
                }
                i += 2;
            } else if arg.len() > 0 && arg[0] == 45 {
                return Err(ConfigError::UnknownOption(copy_of(arg)));
            } else {
                i += 1;
            }
        }
        Ok(found)
    }
}

/// What the daemon runs with.
pub struct Config {
    pub graphite: Option<Target>,
    pub console: bool,
    pub port: u16,
    pub admin_port: u16,
    pub flush_ms: u64,
}

/// The mathematical value of a `Config`.
pub struct ConfigView {
    pub graphite: Option<(Seq<u8>, u16)>,
    pub console: bool,
    pub port: u16,
    pub admin_port: u16,
    pub flush_ms: u64,
}

impl View for Config {
    type V = ConfigView;

    open spec fn view(&self) -> ConfigView {
        ConfigView {
            graphite: match self.graphite {
                Some(t) => Some((t.host@, t.port)),
                None => None,
            },
            console: self.console,
            port: self.port,
            admin_port: self.admin_port,
            flush_ms: self.flush_ms,
        }
    }
}

/// What a command line asks of the daemon: to print the usage text, to
/// print an error and the usage text, or to run.
pub enum Startup {
    Usage,
    Failed(ConfigError),
    Run(Config),
}

/// The mathematical value of a `Startup`.
pub enum StartupView {
    Usage,
    Failed(ConfigErrorView),
    Run(ConfigView),
}

impl View for Startup {
    type V = StartupView;

    open spec fn view(&self) -> StartupView {
        match self {
            Startup::Usage => StartupView::Usage,
            Startup::Failed(e) => StartupView::Failed(e@),
            Startup::Run(c) => StartupView::Run(c@),
        }
    }
}

/// The Graphite target of an optional `host[:port]` value.
pub open spec fn spec_graphite(arg: Option<Seq<u8>>) -> Result<
    Option<(Seq<u8>, u16)>,
    ConfigErrorView,
> {
    match arg {
        None => Ok(None),
        Some(arg) => match spec_target(arg) {
            Ok(t) => Ok(Some(t)),
            Err(e) => Err(e),
        },
    }
}

/// The port of an optional port text, `default` where there is none.
pub open spec fn spec_port(text: Option<Seq<u8>>, default: u16) -> Result<u16, ConfigErrorView> {
    match text {
        None => Ok(default),
        Some(t) => match spec_number(t, u16::MAX as nat) {
            Some(p) => Ok(p as u16),
            None => Err(ConfigErrorView::InvalidPort(t)),
        },
    }
}

/// The flush interval in milliseconds of an optional text in seconds.
pub open spec fn spec_interval(text: Option<Seq<u8>>) -> Result<u64, ConfigErrorView> {
    match text {
        None => Ok(FLUSH_INTERVAL_MS),
        Some(t) => match spec_flush_ms(t) {
            Some(ms) => Ok(ms),
            None => Err(ConfigErrorView::InvalidInteger(t)),
        },
    }
}

/// What the options ask of the daemon. A request for help comes before
/// everything; then the first value that cannot be read, in the order
/// Graphite, port, management port, flush interval, is the error.
pub open spec fn spec_startup(o: OptionsView) -> StartupView {
    if o.help {
        StartupView::Usage
    } else {
        match spec_graphite(o.graphite) {
            Err(e) => StartupView::Failed(e),
            Ok(graphite) => match spec_port(o.port, DEFAULT_UDP_PORT) {
                Err(e) => StartupView::Failed(e),
                Ok(port) => match spec_port(o.admin_port, DEFAULT_TCP_PORT) {
                    Err(e) => StartupView::Failed(e),
                    Ok(admin_port) => match spec_interval(o.flush) {
                        Err(e) => StartupView::Failed(e),
                        Ok(flush_ms) => StartupView::Run(
                            ConfigView { graphite, console: o.console, port, admin_port, flush_ms },
                        ),
                    },
                },
            },
        }
    }
}

/// What a command line asks of the daemon.
pub open spec fn spec_command_line(args: Seq<Seq<u8>>) -> StartupView {
    match spec_scan(args, no_options()) {
        Err(e) => StartupView::Failed(e),
        Ok(o) => spec_startup(o),
    }
}

/// Reads an optional port.
fn port_of(text: Option<Vec<u8>>, default: u16) -> (r: Result<u16, ConfigError>)
    ensures
        match r {
            Ok(p) => spec_port(text_view(text), default) == Ok::<_, ConfigErrorView>(p),
            Err(e) => spec_port(text_view(text), default) == Err::<u16, _>(e@),
        },
{
    match text {
        None => Ok(default),
        Some(t) => match parse_number(t.as_slice(), 65535) {
            Some(p) => Ok(p as u16),
            None => Err(ConfigError::InvalidPort(t)),
        },
    }
}

impl Config {
    /// Weighs the options of a command line.
    pub fn interpret(options: Options) -> (r: Startup)
        ensures
            r@ == spec_startup(options@),
    {
        if options.help {
            return Startup::Usage;
        }
        let graphite = match options.graphite {
            None => None,
            Some(arg) => match graphite_target(arg.as_slice()) {
                Ok(t) => Some(t),
                Err(e) => {
                    return Startup::Failed(e);
                },
            },
        };
        let port = match port_of(options.port, DEFAULT_UDP_PORT) {
            Ok(p) => p,
            Err(e) => {
                return Startup::Failed(e);
            },
        };
        let admin_port = match port_of(options.admin_port, DEFAULT_TCP_PORT) {
            Ok(p) => p,
            Err(e) => {
                return Startup::Failed(e);
            },
        };
        let flush = match options.flush {
            None => FLUSH_INTERVAL_MS,
            Some(t) => match flush_ms(t.as_slice()) {
                Some(ms) => ms,
                None => {
                    return Startup::Failed(ConfigError::InvalidInteger(t));
                },
            },
        };
        Startup::Run(Config { graphite, console: options.console, port, admin_port, flush_ms: flush })
    }

    /// Reads a command line, the program's name left out.
    pub fn from_args(args: &Vec<Vec<u8>>) -> (r: Startup)
        ensures
            r@ == spec_command_line(args.deep_view()),
    {
        match Options::scan(args) {
            Ok(options) => Config::interpret(options),
            Err(e) => Startup::Failed(e),
        }
    }
}

/// The usage text for a program called `program`.
pub open spec fn usage_text(program: Seq<u8>) -> Seq<u8> {
    lit("Usage: ") + program + lit(" [options]\n") + lit(
        "  -h --help               Show usage information\n",
    ) + lit(
        "  --graphite host[:port]  Enable the graphite backend. Port will default to 2003 if not specified.\n",
    ) + lit("  --console               Enable console output.\n") + lit(
        "  --port port             Have the statsd server listen on this UDP port. Defaults to ",
    ) + decimal(DEFAULT_UDP_PORT as int) + lit(".\n") + lit(
        "  --admin-port port       Have the admin server listen on this TCP port. Defaults to ",
    ) + decimal(DEFAULT_TCP_PORT as int) + lit(".\n") + lit(
        "  --flush                 Flush interval, in seconds. Defaults to ",
    ) + decimal((FLUSH_INTERVAL_MS / 1000) as int) + lit(".\n")
}

/// The usage text for a program called `program`.
pub fn usage(program: &[u8]) -> (r: Vec<u8>)
    ensures
        r@ == usage_text(program@),
{
    let mut out: Vec<u8> = Vec::new();
    push_bytes(&mut out, "Usage: ".as_bytes());
    push_bytes(&mut out, program);
    push_bytes(&mut out, " [options]\n".as_bytes());
    push_bytes(&mut out, "  -h --help               Show usage information\n".as_bytes());
    push_bytes(
        &mut out,
        "  --graphite host[:port]  Enable the graphite backend. Port will default to 2003 if not specified.\n".as_bytes(),
    );
    push_bytes(&mut out, "  --console               Enable console output.\n".as_bytes());
    push_bytes(
        &mut out,
        "  --port port             Have the statsd server listen on this UDP port. Defaults to ".as_bytes(),
    );
    push_unsigned(&mut out, DEFAULT_UDP_PORT as u128);
    push_bytes(&mut out, ".\n".as_bytes());
    push_bytes(
        &mut out,
        "  --admin-port port       Have the admin server listen on this TCP port. Defaults to ".as_bytes(),
    );
    push_unsigned(&mut out, DEFAULT_TCP_PORT as u128);
    push_bytes(&mut out, ".\n".as_bytes());
    push_bytes(
        &mut out,
        "  --flush                 Flush interval, in seconds. Defaults to ".as_bytes(),
    );
    push_unsigned(&mut out, (FLUSH_INTERVAL_MS / 1000) as u128);
    push_bytes(&mut out, ".\n".as_bytes());
    proof {
        assert(out@ =~= usage_text(program@));
    }
    out
}

} // verus!
