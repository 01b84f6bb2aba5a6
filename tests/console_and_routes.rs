use gateserver::commands::{command_reply, exec, reconnect_outcome, save_outcome, show_outcome, split_words, Backend, Console};
use gateserver::config::{BaseConfig, ProxyConfig, ServerConfig, WebConfig};
use gateserver::routing::{build_routes, dispatch, Dispatch, Method, Service};
use gateserver::text::{decimal_string, parse_u64, trim_start_matches, IntErrorKind};
use gateserver::web::{choose_file, file_response, handle_default, is_virtual_route, locate_file, not_found_page, test_api, WebTarget};

fn proxy(path: &str, to: &str) -> ProxyConfig {
    ProxyConfig { path: path.to_string(), forward_to: to.to_string(), timeout: 1000 }
}

fn config(tcp: bool) -> ServerConfig {
    ServerConfig {
        server: BaseConfig { host: "0.0.0.0".to_string(), port: 8080, file_log: false, log_level: "info".to_string() },
        web: Some(WebConfig { path: "/web".to_string(), dist_path: "dist".to_string(), spa_support: true }),
        websocket_proxy: Some(proxy("/ws", "ws://127.0.0.1:9000")),
        tcp_proxy: if tcp { Some(proxy("/tcp", "127.0.0.1:9001")) } else { None },
        reverse_proxy: Some(proxy("/rp", "http://up")),
    }
}

fn reply(c: Console) -> String {
    match c {
        Console::Reply(s) => s,
        _ => panic!("expected a reply"),
    }
}

#[test]
fn unconfigured_tcp_path_is_not_found() {
    let routes = build_routes(&config(false));
    assert_eq!(dispatch(&routes, Method::Post, "/tcp"), Dispatch::NotFound);
}

#[test]
fn configured_routes_dispatch() {
    let routes = build_routes(&config(true));
    assert_eq!(dispatch(&routes, Method::Post, "/tcp"), Dispatch::Serve(Service::TcpProxy));
    assert_eq!(dispatch(&routes, Method::Get, "/tcp"), Dispatch::MethodNotAllowed);
    assert_eq!(dispatch(&routes, Method::Post, "/ws"), Dispatch::Serve(Service::WebSocketProxy));
    assert_eq!(dispatch(&routes, Method::Post, "/api"), Dispatch::Serve(Service::Api));
    assert_eq!(dispatch(&routes, Method::Get, "/rp"), Dispatch::Serve(Service::ReverseProxy));
    assert_eq!(dispatch(&routes, Method::Head, "/rp/a/b"), Dispatch::Serve(Service::ReverseProxy));
    assert_eq!(dispatch(&routes, Method::Get, "/web/app.js"), Dispatch::Serve(Service::Web));
    assert_eq!(dispatch(&routes, Method::Get, "/rpx"), Dispatch::NotFound);
    assert_eq!(dispatch(&routes, Method::Other, "/ws"), Dispatch::MethodNotAllowed);
    assert_eq!(build_routes(&config(true)).len(), 7);
}

#[test]
fn not_found_page_names_the_path() {
    let r = handle_default("/nowhere");
    assert_eq!(r.status, 404);
    let body = String::from_utf8(r.body).unwrap();
    assert_eq!(body, not_found_page("Path '/nowhere' is not set up"));
    assert!(body.contains("Path '/nowhere' is not set up"));
}

#[test]
fn api_probe_answers_empty_object() {
    let r = test_api();
    assert_eq!(r.status, 200);
    assert_eq!(r.body, b"{}".to_vec());
}

#[test]
fn web_files_are_located_and_chosen() {
    let web = WebConfig { path: "/web".to_string(), dist_path: "dist".to_string(), spa_support: true };
    let req = locate_file("/web//app.js", &web);
    assert_eq!(req.relative, "app.js");
    assert_eq!(req.file_path, "dist/app.js");
    assert!(matches!(choose_file(&req, &web, true), WebTarget::Serve(p) if p == "dist/app.js"));
    assert!(matches!(choose_file(&req, &web, false), WebTarget::Missing(m) if m == "Not found file dist/app.js"));
    let index = locate_file("/web", &web);
    assert!(matches!(choose_file(&index, &web, false), WebTarget::Serve(p) if p == "dist/index.html"));
    let route = locate_file("/web/settings/user", &web);
    assert!(matches!(choose_file(&route, &web, false), WebTarget::Serve(p) if p == "dist/index.html"));
    let no_spa = WebConfig { spa_support: false, ..web };
    assert!(matches!(choose_file(&route, &no_spa, false), WebTarget::Missing(_)));
    assert!(is_virtual_route("a/b"));
    assert!(!is_virtual_route("a.b"));
}

#[test]
fn file_response_uses_guessed_type() {
    let r = file_response("dist/index.html", b"<p>".to_vec());
    assert_eq!(r.status, 200);
    assert_eq!(r.headers[0].value, b"text/html".to_vec());
    assert_eq!(r.body, b"<p>".to_vec());
    let r = file_response("dist/LICENSE", Vec::new());
    assert_eq!(r.headers[0].value, b"application/octet-stream".to_vec());
}

#[test]
fn help_and_unknown_commands() {
    let mut c = config(true);
    let help = reply(exec("help", &mut c));
    assert!(help.starts_with("available commands:\nconfig timeout [websocket_proxy|tcp_proxy] [timeout] - Set the service timeout\n"));
    assert!(help.ends_with("help - shows this message"));
    assert_eq!(reply(exec("bogus", &mut c)), "Unrecognized command, enter `help` to view supported commands");
    assert_eq!(reply(exec("config nothing", &mut c)), "Unrecognized command, enter `help` to view supported commands");
}

#[test]
fn timeout_command_updates_configuration() {
    let mut c = config(true);
    assert_eq!(reply(exec("config timeout tcp_proxy 250", &mut c)), "Successfully updated the timeout config for TCP proxy");
    assert_eq!(c.tcp_proxy.as_ref().unwrap().timeout, 250);
    assert_eq!(reply(exec("config timeout websocket_proxy 7", &mut c)), "Successfully updated the timeout config for WebSocket proxy");
    assert_eq!(c.websocket_proxy.as_ref().unwrap().timeout, 7);
    assert_eq!(reply(exec("config timeout tcp_proxy", &mut c)), "Usage: config timeout [websocket_proxy|tcp_proxy] [timeout]");
    assert_eq!(reply(exec("config timeout tcp_proxy 1x", &mut c)), "failed to execute command: invalid digit found in string");
    assert_eq!(reply(exec("config timeout web 5", &mut c)), "failed to execute command: Only `websocket_proxy` and `tcp_proxy` allowed");
    let mut without = config(false);
    assert_eq!(reply(exec("config timeout tcp_proxy 5", &mut without)), "failed to execute command: Could not find configuration for tcp_proxy");
}

#[test]
fn save_show_and_reconnect_commands() {
    let mut c = config(true);
    assert!(matches!(exec("config save", &mut c), Console::SaveConfig));
    assert_eq!(reply(exec("config save now", &mut c)), "Usage: config save");
    assert!(matches!(exec("config show", &mut c), Console::ShowConfig));
    assert!(matches!(exec("net reconnect tcp_proxy", &mut c),
        Console::Reconnect { backend: Backend::Tcp, address } if address == "127.0.0.1:9001"));
    assert_eq!(reply(exec("net reconnect", &mut c)), "Usage: net reconnect [websocket_proxy|tcp_proxy]");
    let mut without = config(false);
    assert_eq!(reply(exec("net reconnect tcp_proxy", &mut without)),
        "failed to execute command: Could not find configuration or connection for tcp_proxy");
}

#[test]
fn command_outcomes_become_lines() {
    assert_eq!(command_reply(reconnect_outcome(Backend::WebSocket, true)), "Successfully reconnected to Websocket server");
    assert_eq!(command_reply(reconnect_outcome(Backend::Tcp, false)), "failed to execute command: Failed to reconnect to TCP server");
    assert_eq!(command_reply(save_outcome(Ok(()))), "Successfully updated the configuration file");
    assert_eq!(command_reply(save_outcome(Err("denied".to_string()))), "failed to execute command: denied");
    assert_eq!(command_reply(show_outcome(Err("bad".to_string()))), "failed to execute command: Could not get current configuration: bad");
    assert_eq!(command_reply(show_outcome(Ok("a = 1".to_string()))), "a = 1");
}

#[test]
fn words_keep_empty_pieces() {
    assert_eq!(split_words("a  b"), vec!["a", "", "b"]);
    assert_eq!(split_words(""), vec![""]);
    assert_eq!(split_words("x "), vec!["x", ""]);
}

#[test]
fn numbers_parse_as_std_does() {
    assert_eq!(parse_u64("250"), Ok(250));
    assert_eq!(parse_u64("+7"), Ok(7));
    assert_eq!(parse_u64(""), Err(IntErrorKind::Empty));
    assert_eq!(parse_u64("+"), Err(IntErrorKind::InvalidDigit));
    assert_eq!(parse_u64("-1"), Err(IntErrorKind::InvalidDigit));
    assert_eq!(parse_u64("18446744073709551615"), Ok(u64::MAX));
    assert_eq!(parse_u64("18446744073709551616"), Err(IntErrorKind::PosOverflow));
    for s in ["0", "42", "+9", "x", "", "99999999999999999999"] {
        assert_eq!(parse_u64(s).ok(), s.parse::<u64>().ok());
    }
}

#[test]
fn decimal_and_trimming() {
    assert_eq!(decimal_string(0), "0");
    assert_eq!(decimal_string(4096), "4096");
    assert_eq!(decimal_string(u64::MAX), u64::MAX.to_string());
    assert_eq!(trim_start_matches("///a", "/"), "a");
    assert_eq!(trim_start_matches("abab", "ab"), "");
    assert_eq!(trim_start_matches("abc", ""), "abc");
}
