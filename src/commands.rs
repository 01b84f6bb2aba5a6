//! The operator console: reading a command line and carrying out what does
//! not need the outside world.
use vstd::prelude::*;
use crate::config::{ProxyConfig, ServerConfig};
use crate::text::{chars_of, parse_u64, parse_u64_spec, IntErrorKind};

verus! {

/// A backend that keeps a connection.
#[derive(Clone, Copy, Debug, PartialEq, Eq, Structural)]
pub enum Backend {
    WebSocket,
    Tcp,
}

/// What a command line comes to.
pub enum Console {
    /// Print this text.
    Reply(String),
    /// Write the configuration to its file.
    SaveConfig,
    /// Print the configuration.
    ShowConfig,
    /// Open a new connection to `address` for `backend` and replace the old one.
    Reconnect { backend: Backend, address: String },
}

/// The words of a line, split at each single space, as `str::split(" ")`
/// gives them: empty words between adjacent spaces are kept.
pub open spec fn words(s: Seq<char>) -> Seq<Seq<char>>
    decreases s.len(),
{
    if s.len() == 0 {
        seq![Seq::empty()]
    } else {
        let w = words(s.drop_last());
        if s.last() == ' ' {
            w.push(Seq::empty())
        } else {
            w.update(w.len() - 1, w.last().push(s.last()))
        }
    }
}

pub proof fn lemma_words_nonempty(s: Seq<char>)
    ensures
        words(s).len() >= 1,
    decreases s.len(),
{
    if s.len() > 0 {
        lemma_words_nonempty(s.drop_last());
    }
}

/// Splits a line at each space.
pub fn split_words(line: &str) -> (r: Vec<String>)
    ensures
        r@.map_values(|w: String| w@) == words(line@),
{
    let v = chars_of(line);
    let n = v.len();
    let mut r: Vec<String> = Vec::new();
    let mut start: usize = 0;
    let mut i: usize = 0;
    assert(line@.take(0) =~= Seq::<char>::empty());
    while i < n
        invariant
            v@ == line@,
            n == v.len(),
            start <= i <= n,
            r@.map_values(|w: String| w@).push(line@.subrange(start as int, i as int))
                == words(line@.take(i as int)),
        decreases n - i,
    {
        proof {
            lemma_words_nonempty(line@.take(i as int));
            assert(line@.take(i + 1).drop_last() =~= line@.take(i as int));
            assert(line@.take(i + 1).last() == v@[i as int]);
        }
        if v[i] == ' ' {
            let ghost before = r@.map_values(|w: String| w@);
            r.push(String::from_str(line.substring_char(start, i)));
            assert(r@.map_values(|w: String| w@) =~= before.push(line@.subrange(start as int, i as int)));
            start = i + 1;
            assert(line@.subrange(start as int, i + 1) =~= Seq::<char>::empty());
        } else {
            assert(line@.subrange(start as int, i + 1) =~= line@.subrange(start as int, i as int).push(v@[i as int]));
        }
        i = i + 1;
    }
    let ghost before = r@.map_values(|w: String| w@);
    r.push(String::from_str(line.substring_char(start, n)));
    assert(r@.map_values(|w: String| w@) =~= before.push(line@.subrange(start as int, n as int)));
    assert(line@.take(n as int) =~= line@);
    r
}

pub open spec fn help_text() -> Seq<char> {
    "available commands:\nconfig timeout [websocket_proxy|tcp_proxy] [timeout] - Set the service timeout\nconfig save  - Save the current configuration to file\nconfig show  - Show the current configuration\nnet reconnect [websocket_proxy|tcp_proxy] - Reconnect service\nhelp - shows this message"@
}

pub open spec fn unrecognized_text() -> Seq<char> {
    "Unrecognized command, enter `help` to view supported commands"@
}

pub open spec fn failure_prefix() -> Seq<char> {
    "failed to execute command: "@
}

/// The message std gives for each reason a number could not be read.
pub open spec fn int_error_text(k: IntErrorKind) -> Seq<char> {
    match k {
        IntErrorKind::Empty => "cannot parse integer from empty string"@,
        IntErrorKind::InvalidDigit => "invalid digit found in string"@,
        IntErrorKind::PosOverflow => "number too large to fit in target type"@,
    }
}

pub open spec fn only_known_services() -> Seq<char> {
    "Only `websocket_proxy` and `tcp_proxy` allowed"@
}

pub open spec fn replies(r: Result<Console, String>, msg: Seq<char>) -> bool {
    r matches Ok(Console::Reply(s)) && s@ == msg
}

pub open spec fn fails_with(r: Result<Console, String>, msg: Seq<char>) -> bool {
    r matches Err(s) && s@ == msg
}

pub open spec fn with_timeout(p: ProxyConfig, t: u64) -> ProxyConfig {
    ProxyConfig { path: p.path, forward_to: p.forward_to, timeout: t }
}

pub open spec fn words_of(args: Vec<String>) -> Seq<Seq<char>> {
    args@.map_values(|w: String| w@)
}

fn int_error_message(k: IntErrorKind) -> (r: String)
    ensures
        r@ == int_error_text(k),
{
    match k {
        IntErrorKind::Empty => String::from_str("cannot parse integer from empty string"),
        IntErrorKind::InvalidDigit => String::from_str("invalid digit found in string"),
        IntErrorKind::PosOverflow => String::from_str("number too large to fit in target type"),
    }
}

/// `config timeout <websocket_proxy|tcp_proxy> <ms>`: sets the reply
/// deadline of a configured backend, in memory.
pub fn timeout(args: &Vec<String>, config: &mut ServerConfig) -> (r: Result<Console, String>)
    ensures
        args@.len() != 2 ==> replies(r, "Usage: config timeout [websocket_proxy|tcp_proxy] [timeout]"@)
            && *final(config) == *old(config),
        args@.len() == 2 ==> match parse_u64_spec(args@[1]@) {
            Err(k) => fails_with(r, int_error_text(k)) && *final(config) == *old(config),
            Ok(t) => if args@[0]@ == "websocket_proxy"@ {
                match old(config).websocket_proxy {
                    Some(p) => replies(r, "Successfully updated the timeout config for WebSocket proxy"@)
                        && *final(config) == (ServerConfig { websocket_proxy: Some(with_timeout(p, t)), ..*old(config) }),
                    None => fails_with(r, "Could not find configuration for websocket_proxy"@)
                        && *final(config) == *old(config),
                }
            } else if args@[0]@ == "tcp_proxy"@ {
                match old(config).tcp_proxy {
                    Some(p) => replies(r, "Successfully updated the timeout config for TCP proxy"@)
                        && *final(config) == (ServerConfig { tcp_proxy: Some(with_timeout(p, t)), ..*old(config) }),
                    None => fails_with(r, "Could not find configuration for tcp_proxy"@)
                        && *final(config) == *old(config),
                }
            } else {
                fails_with(r, only_known_services()) && *final(config) == *old(config)
            },
        },
{
    if args.len() != 2 {
        return Ok(Console::Reply(String::from_str("Usage: config timeout [websocket_proxy|tcp_proxy] [timeout]")));
    }
    let t = match parse_u64(args[1].as_str()) {
        Ok(t) => t,
        Err(k) => return Err(int_error_message(k)),
    };
    if args[0] == String::from_str("websocket_proxy") {
        match &mut config.websocket_proxy {
            Some(p) => {
                p.timeout = t;
                Ok(Console::Reply(String::from_str("Successfully updated the timeout config for WebSocket proxy")))
            },
            None => Err(String::from_str("Could not find configuration for websocket_proxy")),
        }
    } else if args[0] == String::from_str("tcp_proxy") {
        match &mut config.tcp_proxy {
            Some(p) => {
                p.timeout = t;
                Ok(Console::Reply(String::from_str("Successfully updated the timeout config for TCP proxy")))
            },
            None => Err(String::from_str("Could not find configuration for tcp_proxy")),
        }
    } else {
        Err(String::from_str("Only `websocket_proxy` and `tcp_proxy` allowed"))
    }
}

/// `config save`: asks for the configuration to be written to its file.
pub fn save(args: &Vec<String>) -> (r: Result<Console, String>)
    ensures
        args@.len() != 0 ==> replies(r, "Usage: config save"@),
        args@.len() == 0 ==> (r matches Ok(Console::SaveConfig)),
{
    if args.len() != 0 {
        return Ok(Console::Reply(String::from_str("Usage: config save")));
    }
    Ok(Console::SaveConfig)
}

/// `config show`: asks for the configuration to be printed.
pub fn show(args: &Vec<String>) -> (r: Result<Console, String>)
    ensures
        args@.len() != 0 ==> replies(r, "Usage: config show"@),
        args@.len() == 0 ==> (r matches Ok(Console::ShowConfig)),
{
    if args.len() != 0 {
        return Ok(Console::Reply(String::from_str("Usage: config show")));
    }
    Ok(Console::ShowConfig)
}

pub open spec fn asks_reconnect(r: Result<Console, String>, b: Backend, address: Seq<char>) -> bool {
    r matches Ok(Console::Reconnect { backend, address: a }) && backend == b && a@ == address
}

/// `net reconnect <websocket_proxy|tcp_proxy>`: asks for a configured
/// backend's connection to be opened anew.
pub fn reconnect(args: &Vec<String>, config: &ServerConfig) -> (r: Result<Console, String>)
    ensures
        args@.len() != 1 ==> replies(r, "Usage: net reconnect [websocket_proxy|tcp_proxy]"@),
        args@.len() == 1 ==> if args@[0]@ == "websocket_proxy"@ {
            match config.websocket_proxy {
                Some(p) => asks_reconnect(r, Backend::WebSocket, p.forward_to@),
                None => fails_with(r, "Could not find configuration or connection for websocket_proxy"@),
            }
        } else if args@[0]@ == "tcp_proxy"@ {
            match config.tcp_proxy {
                Some(p) => asks_reconnect(r, Backend::Tcp, p.forward_to@),
                None => fails_with(r, "Could not find configuration or connection for tcp_proxy"@),
            }
        } else {
            fails_with(r, only_known_services())
        },
{
    if args.len() != 1 {
        return Ok(Console::Reply(String::from_str("Usage: net reconnect [websocket_proxy|tcp_proxy]")));
    }
    if args[0] == String::from_str("websocket_proxy") {
        match &config.websocket_proxy {
            Some(p) => Ok(Console::Reconnect { backend: Backend::WebSocket, address: p.forward_to.clone() }),
            None => Err(String::from_str("Could not find configuration or connection for websocket_proxy")),
        }
    } else if args[0] == String::from_str("tcp_proxy") {
        match &config.tcp_proxy {
            Some(p) => Ok(Console::Reconnect { backend: Backend::Tcp, address: p.forward_to.clone() }),
            None => Err(String::from_str("Could not find configuration or connection for tcp_proxy")),
        }
    } else {
        Err(String::from_str("Only `websocket_proxy` and `tcp_proxy` allowed"))
    }
}

/// The line printed for a command's result.
pub open spec fn reply_text(r: Result<Seq<char>, Seq<char>>) -> Seq<char> {
    match r {
        Ok(s) => s,
        Err(e) => failure_prefix() + e,
    }
}

/// The line printed for a command's result: the text itself, or the error
/// after `failed to execute command: `.
pub fn command_reply(r: Result<String, String>) -> (out: String)
    ensures
        out@ == reply_text(match r { Ok(s) => Ok(s@), Err(e) => Err(e@) }),
{
    match r {
        Ok(s) => s,
        Err(e) => {
            let mut out = String::from_str("failed to execute command: ");
            out.append(e.as_str());
            out
        },
    }
}

/// The result of a reconnect that the console asked for.
pub fn reconnect_outcome(backend: Backend, connected: bool) -> (r: Result<String, String>)
    ensures
        backend == Backend::WebSocket && connected ==> (r matches Ok(s) && s@ == "Successfully reconnected to Websocket server"@),
        backend == Backend::WebSocket && !connected ==> (r matches Err(s) && s@ == "Failed to reconnect to Websocket server"@),
        backend == Backend::Tcp && connected ==> (r matches Ok(s) && s@ == "Successfully reconnected to TCP server"@),
        backend == Backend::Tcp && !connected ==> (r matches Err(s) && s@ == "Failed to reconnect to TCP server"@),
{
    match (backend, connected) {
        (Backend::WebSocket, true) => Ok(String::from_str("Successfully reconnected to Websocket server")),
        (Backend::WebSocket, false) => Err(String::from_str("Failed to reconnect to Websocket server")),
        (Backend::Tcp, true) => Ok(String::from_str("Successfully reconnected to TCP server")),
        (Backend::Tcp, false) => Err(String::from_str("Failed to reconnect to TCP server")),
    }
}

/// The result of writing the configuration file; `written` holds the
/// write error's text when it failed.
pub fn save_outcome(written: Result<(), String>) -> (r: Result<String, String>)
    ensures
        written is Ok ==> (r matches Ok(s) && s@ == "Successfully updated the configuration file"@),
        written matches Err(e) ==> (r matches Err(s) && s@ == e@),
{
    match written {
        Ok(()) => Ok(String::from_str("Successfully updated the configuration file")),
        Err(e) => Err(e),
    }
}

/// The result of printing the configuration; `rendered` holds the text, or
/// why it could not be rendered.
pub fn show_outcome(rendered: Result<String, String>) -> (r: Result<String, String>)
    ensures
        rendered matches Ok(t) ==> (r matches Ok(s) && s@ == t@),
        rendered matches Err(e) ==> (r matches Err(s) && s@ == "Could not get current configuration: "@ + e@),
{
    match rendered {
        Ok(t) => Ok(t),
        Err(e) => {
            let mut s = String::from_str("Could not get current configuration: ");
            s.append(e.as_str());
            Err(s)
        },
    }
}

/// Which command a line names, by its first two words.
pub open spec fn names(w: Seq<Seq<char>>, category: Seq<char>, action: Seq<char>) -> bool {
    w.len() >= 2 && w[0] == category && w[1] == action
}

/// Reads a command line and carries it out as far as it can without the
/// outside world; the rest is asked of the caller.
pub fn exec(line: &str, config: &mut ServerConfig) -> (r: Console)
    ensures
        ({
            let w = words(line@);
            let args = w.skip(2);
            if w.len() == 1 && w[0] == "help"@ {
                (r matches Console::Reply(s) && s@ == help_text()) && *final(config) == *old(config)
            } else if names(w, "config"@, "timeout"@) {
                if args.len() != 2 {
                    (r matches Console::Reply(s) && s@ == "Usage: config timeout [websocket_proxy|tcp_proxy] [timeout]"@)
                        && *final(config) == *old(config)
                } else {
                    match parse_u64_spec(args[1]) {
                        Err(k) => r matches Console::Reply(s) && s@ == failure_prefix() + int_error_text(k)
                            && *final(config) == *old(config),
                        Ok(t) => if args[0] == "websocket_proxy"@ && old(config).websocket_proxy is Some {
                            r matches Console::Reply(s) && s@ == "Successfully updated the timeout config for WebSocket proxy"@
                                && *final(config) == (ServerConfig {
                                    websocket_proxy: Some(with_timeout(old(config).websocket_proxy->0, t)),
                                    ..*old(config)
                                })
                        } else if args[0] == "tcp_proxy"@ && old(config).tcp_proxy is Some {
                            r matches Console::Reply(s) && s@ == "Successfully updated the timeout config for TCP proxy"@
                                && *final(config) == (ServerConfig {
                                    tcp_proxy: Some(with_timeout(old(config).tcp_proxy->0, t)),
                                    ..*old(config)
                                })
                        } else {
                            *final(config) == *old(config) && (r matches Console::Reply(s) && s@ == failure_prefix() + (
                                if args[0] == "websocket_proxy"@ {
                                    "Could not find configuration for websocket_proxy"@
                                } else if args[0] == "tcp_proxy"@ {
                                    "Could not find configuration for tcp_proxy"@
                                } else {
                                    only_known_services()
                                }))
                        },
                    }
                }
            } else if names(w, "config"@, "save"@) {
                (args.len() == 0 ==> r is SaveConfig)
                    && (args.len() != 0 ==> (r matches Console::Reply(s) && s@ == "Usage: config save"@))
                    && *final(config) == *old(config)
            } else if names(w, "config"@, "show"@) {
                (args.len() == 0 ==> r is ShowConfig)
                    && (args.len() != 0 ==> (r matches Console::Reply(s) && s@ == "Usage: config show"@))
                    && *final(config) == *old(config)
            } else if names(w, "net"@, "reconnect"@) {
                *final(config) == *old(config) && if args.len() != 1 {
                    r matches Console::Reply(s) && s@ == "Usage: net reconnect [websocket_proxy|tcp_proxy]"@
                } else if args[0] == "websocket_proxy"@ {
                    match old(config).websocket_proxy {
                        Some(p) => asks_reconnect(Ok(r), Backend::WebSocket, p.forward_to@),
                        None => r matches Console::Reply(s) && s@ == failure_prefix()
                            + "Could not find configuration or connection for websocket_proxy"@,
                    }
                } else if args[0] == "tcp_proxy"@ {
                    match old(config).tcp_proxy {
                        Some(p) => asks_reconnect(Ok(r), Backend::Tcp, p.forward_to@),
                        None => r matches Console::Reply(s) && s@ == failure_prefix()
                            + "Could not find configuration or connection for tcp_proxy"@,
                    }
                } else {
                    r matches Console::Reply(s) && s@ == failure_prefix() + only_known_services()
                }
            } else {
                r matches Console::Reply(s) && s@ == unrecognized_text() && *final(config) == *old(config)
            }
        }),
{
    let mut input = split_words(line);
    let ghost w = words(line@);
    proof {
        lemma_words_nonempty(line@);
        reveal_strlit("websocket_proxy");
        reveal_strlit("tcp_proxy");
        assert("websocket_proxy"@.len() != "tcp_proxy"@.len());
    }
    if input.len() == 1 && input[0] == String::from_str("help") {
        return Console::Reply(String::from_str("available commands:\nconfig timeout [websocket_proxy|tcp_proxy] [timeout] - Set the service timeout\nconfig save  - Save the current configuration to file\nconfig show  - Show the current configuration\nnet reconnect [websocket_proxy|tcp_proxy] - Reconnect service\nhelp - shows this message"));
    }
    if input.len() < 2 {
        return Console::Reply(String::from_str("Unrecognized command, enter `help` to view supported commands"));
    }
    let args = input.split_off(2);
    assert(words_of(args) =~= w.skip(2));
    assert(input@[0]@ == w[0] && input@[1]@ == w[1]);
    let config_word = String::from_str("config");
    let result = if input[0] == config_word && input[1] == String::from_str("timeout") {
        timeout(&args, config)
    } else if input[0] == config_word && input[1] == String::from_str("save") {
        save(&args)
    } else if input[0] == config_word && input[1] == String::from_str("show") {
        show(&args)
    } else if input[0] == String::from_str("net") && input[1] == String::from_str("reconnect") {
        reconnect(&args, config)
    } else {
        return Console::Reply(String::from_str("Unrecognized command, enter `help` to view supported commands"));
    };
    match result {
        Ok(c) => c,
        Err(e) => Console::Reply(command_reply(Err(e))),
    }
}

} // verus!
