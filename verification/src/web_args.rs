//! Command-line options of the local browser interface.

use vstd::prelude::*;
use crate::text::{has_prefix, views, str_eq, str_starts_with};
use crate::number::{parse_unsigned, parse_unsigned_str};
use crate::cli::flag_value;

verus! {

/// Settings of the local browser interface.
#[derive(Debug, PartialEq, Eq)]
pub struct WebConfig {
    pub db_path: String,
    pub host: String,
    pub port: u16,
    pub token: Option<String>,
    pub open_browser: bool,
}

/// Abstract settings.
pub struct WebConfigModel {
    pub db_path: Seq<char>,
    pub host: Seq<char>,
    pub port: u16,
    pub token: Option<Seq<char>>,
    pub open_browser: bool,
}

impl View for WebConfig {
    type V = WebConfigModel;

    open spec fn view(&self) -> WebConfigModel {
        WebConfigModel {
            db_path: self.db_path@,
            host: self.host@,
            port: self.port,
            token: match self.token {
                Some(t) => Some(t@),
                None => None,
            },
            open_browser: self.open_browser,
        }
    }
}

/// The port the browser interface listens on unless told otherwise.
pub const DEFAULT_WEB_PORT: u16 = 7832;

/// The default settings for a database: loopback host, the default port, a
/// fresh session token, and a browser window opened at start.
pub open spec fn default_web_config(db_path: Seq<char>) -> WebConfigModel {
    WebConfigModel {
        db_path,
        host: "127.0.0.1"@,
        port: DEFAULT_WEB_PORT,
        token: None,
        open_browser: true,
    }
}

impl WebConfig {
    /// The default settings for the database at `db_path`.
    pub fn new(db_path: String) -> (r: WebConfig)
        ensures
            r@ == default_web_config(db_path@),
    {
        WebConfig {
            db_path,
            host: String::from_str("127.0.0.1"),
            port: DEFAULT_WEB_PORT,
            token: None,
            open_browser: true,
        }
    }
}

/// Reads the browser options from position `i` on: `--host`, `--port`,
/// `--db` and `--token` with a value each, `--no-open`, and one database path
/// given either by `--db` or as a bare argument. Another option starting with
/// `--`, a second database path, a missing value or a port that is not a
/// number from 0 to 65535 is refused.
pub open spec fn read_web_args(
    args: Seq<Seq<char>>,
    i: int,
    cfg: WebConfigModel,
    db_set: bool,
) -> Result<WebConfigModel, Seq<char>>
    decreases args.len() - i,
{
    if i < 0 || i >= args.len() {
        Ok(cfg)
    } else {
        let a = args[i];
        if a == "--host"@ {
            match flag_value(args, i + 1, "--host"@) {
                Err(e) => Err(e),
                Ok(v) => read_web_args(args, i + 2, WebConfigModel { host: v, ..cfg }, db_set),
            }
        } else if a == "--port"@ {
            match flag_value(args, i + 1, "--port"@) {
                Err(e) => Err(e),
                Ok(v) => match parse_unsigned(v, 65535) {
                    Some(p) => read_web_args(
                        args,
                        i + 2,
                        WebConfigModel { port: p as u16, ..cfg },
                        db_set,
                    ),
                    None => Err("--port must be a number from 0 to 65535"@),
                },
            }
        } else if a == "--db"@ {
            if db_set {
                Err("Only one database path can be supplied"@)
            } else {
                match flag_value(args, i + 1, "--db"@) {
                    Err(e) => Err(e),
                    Ok(v) => read_web_args(args, i + 2, WebConfigModel { db_path: v, ..cfg }, true),
                }
            }
        } else if a == "--token"@ {
            match flag_value(args, i + 1, "--token"@) {
                Err(e) => Err(e),
                Ok(v) => read_web_args(args, i + 2, WebConfigModel { token: Some(v), ..cfg }, db_set),
            }
        } else if a == "--no-open"@ {
            read_web_args(args, i + 1, WebConfigModel { open_browser: false, ..cfg }, db_set)
        } else if has_prefix(a, "--"@) {
            Err("Unknown web option: "@ + a)
        } else if db_set {
            Err("Only one database path can be supplied"@)
        } else {
            read_web_args(args, i + 1, WebConfigModel { db_path: a, ..cfg }, true)
        }
    }
}

fn take_web_value(args: &Vec<String>, j: usize, flag: &str) -> (r: Result<String, String>)
    ensures
        match flag_value(views(args@), j as int, flag@) {
            Ok(v) => r matches Ok(s) && s@ == v,
            Err(e) => r matches Err(s) && s@ == e,
        },
{
    if j < args.len() && !str_starts_with(args[j].as_str(), "--") {
        Ok(args[j].clone())
    } else {
        let mut e = String::from_str(flag);
        e.append(" requires a value");
        Err(e)
    }
}

fn port_error() -> (r: String)
    ensures
        r@ == "--port must be a number from 0 to 65535"@,
{
    String::from_str("--port must be a number from 0 to 65535")
}

fn second_db_error() -> (r: String)
    ensures
        r@ == "Only one database path can be supplied"@,
{
    String::from_str("Only one database path can be supplied")
}

/// Reads the options that follow `--web` on the program's command line.
pub fn parse_web_config(args: Vec<String>, default_db_path: String) -> (r: Result<WebConfig, String>)
    ensures
        match read_web_args(views(args@), 0, default_web_config(default_db_path@), false) {
            Ok(c) => r matches Ok(cfg) && cfg@ == c,
            Err(e) => r matches Err(s) && s@ == e,
        },
{
    let ghost a = views(args@);
    let mut config = WebConfig::new(default_db_path);
    let mut db_set = false;
    let mut i: usize = 0;
    while i < args.len()
        invariant
            i <= args@.len() + 1,
            a == views(args@),
            read_web_args(a, 0, default_web_config(default_db_path@), false) == read_web_args(
                a,
                i as int,
                config@,
                db_set,
            ),
        decreases args.len() + 1 - i,
    {
        let arg = args[i].as_str();
        assert(a[i as int] == arg@);
        if str_eq(arg, "--host") {
            match take_web_value(&args, i + 1, "--host") {
                Ok(v) => config.host = v,
                Err(e) => {
                    return Err(e);
                },
            }
            i += 2;
        } else if str_eq(arg, "--port") {
            let value = match take_web_value(&args, i + 1, "--port") {
                Ok(v) => v,
                Err(e) => {
                    return Err(e);
                },
            };
            match parse_unsigned_str(value.as_str(), 65535) {
                Some(p) => config.port = p as u16,
                None => {
                    return Err(port_error());
                },
            }
            i += 2;
        } else if str_eq(arg, "--db") {
            if db_set {
                return Err(second_db_error());
            }
            match take_web_value(&args, i + 1, "--db") {
                Ok(v) => config.db_path = v,
                Err(e) => {
                    return Err(e);
                },
            }
            db_set = true;
            i += 2;
        } else if str_eq(arg, "--token") {
            match take_web_value(&args, i + 1, "--token") {
                Ok(v) => config.token = Some(v),
                Err(e) => {
                    return Err(e);
                },
            }
            i += 2;
        } else if str_eq(arg, "--no-open") {
            config.open_browser = false;
            i += 1;
        } else if str_starts_with(arg, "--") {
            let mut e = String::from_str("Unknown web option: ");
            e.append(arg);
            return Err(e);
        } else {
            if db_set {
                return Err(second_db_error());
            }
            config.db_path = args[i].clone();
            db_set = true;
            i += 1;
        }
    }
    Ok(config)
}

/// The value after a flag of the `web` command: the next argument, whatever
/// it holds.
pub open spec fn next_value(args: Seq<Seq<char>>, j: int, flag: Seq<char>) -> Result<
    Seq<char>,
    Seq<char>,
> {
    if 0 <= j < args.len() {
        Ok(args[j])
    } else {
        Err(flag + " requires a value"@)
    }
}

/// Reads the options of the command-line tool's `web` command from position
/// `i` on: `--host`, `--port` and `--token` with a value each, `--no-open`,
/// and bare arguments, the last of which is the database path. Another
/// option starting with `--` is refused.
pub open spec fn read_cli_web_args(args: Seq<Seq<char>>, i: int, cfg: WebConfigModel) -> Result<
    WebConfigModel,
    Seq<char>,
>
    decreases args.len() - i,
{
    if i < 0 || i >= args.len() {
        Ok(cfg)
    } else {
        let a = args[i];
        if a == "--host"@ {
            match next_value(args, i + 1, "--host"@) {
                Err(e) => Err(e),
                Ok(v) => read_cli_web_args(args, i + 2, WebConfigModel { host: v, ..cfg }),
            }
        } else if a == "--port"@ {
            match next_value(args, i + 1, "--port"@) {
                Err(e) => Err(e),
                Ok(v) => match parse_unsigned(v, 65535) {
                    Some(p) => read_cli_web_args(args, i + 2, WebConfigModel { port: p as u16, ..cfg }),
                    None => Err("--port must be a number from 0 to 65535"@),
                },
            }
        } else if a == "--no-open"@ {
            read_cli_web_args(args, i + 1, WebConfigModel { open_browser: false, ..cfg })
        } else if a == "--token"@ {
            match next_value(args, i + 1, "--token"@) {
                Err(e) => Err(e),
                Ok(v) => read_cli_web_args(args, i + 2, WebConfigModel { token: Some(v), ..cfg }),
            }
        } else if !has_prefix(a, "--"@) {
            read_cli_web_args(args, i + 1, WebConfigModel { db_path: a, ..cfg })
        } else {
            Err("Unknown web option: "@ + a)
        }
    }
}

fn take_next(args: &[String], j: usize, flag: &str) -> (r: Result<String, String>)
    ensures
        match next_value(views(args@), j as int, flag@) {
            Ok(v) => r matches Ok(s) && s@ == v,
            Err(e) => r matches Err(s) && s@ == e,
        },
{
    if j < args.len() {
        Ok(args[j].clone())
    } else {
        let mut e = String::from_str(flag);
        e.append(" requires a value");
        Err(e)
    }
}

/// Reads the options of the command-line tool's `web` command.
pub fn parse_cli_web_args(args: &[String], default_db_path: String) -> (r: Result<WebConfig, String>)
    ensures
        match read_cli_web_args(views(args@), 0, default_web_config(default_db_path@)) {
            Ok(c) => r matches Ok(cfg) && cfg@ == c,
            Err(e) => r matches Err(s) && s@ == e,
        },
{
    let ghost a = views(args@);
    let mut config = WebConfig::new(default_db_path);
    let mut i: usize = 0;
    while i < args.len()
        invariant
            i <= args@.len() + 1,
            a == views(args@),
            read_cli_web_args(a, 0, default_web_config(default_db_path@)) == read_cli_web_args(
                a,
                i as int,
                config@,
            ),
        decreases args.len() + 1 - i,
    {
        let arg = args[i].as_str();
        assert(a[i as int] == arg@);
        if str_eq(arg, "--host") {
            match take_next(args, i + 1, "--host") {
                Ok(v) => config.host = v,
                Err(e) => {
                    return Err(e);
                },
            }
            i += 2;
        } else if str_eq(arg, "--port") {
            let value = match take_next(args, i + 1, "--port") {
                Ok(v) => v,
                Err(e) => {
                    return Err(e);
                },
            };
            match parse_unsigned_str(value.as_str(), 65535) {
                Some(p) => config.port = p as u16,
                None => {
                    return Err(port_error());
                },
            }
            i += 2;
        } else if str_eq(arg, "--no-open") {
            config.open_browser = false;
            i += 1;
        } else if str_eq(arg, "--token") {
            match take_next(args, i + 1, "--token") {
                Ok(v) => config.token = Some(v),
                Err(e) => {
                    return Err(e);
                },
            }
            i += 2;
        } else if !str_starts_with(arg, "--") {
            config.db_path = args[i].clone();
            i += 1;
        } else {
            let mut e = String::from_str("Unknown web option: ");
            e.append(arg);
            return Err(e);
        }
    }
    Ok(config)
}

} // verus!
