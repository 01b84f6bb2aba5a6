//! Verified core of an HTTP gateway that fronts a raw TCP backend, a
//! WebSocket backend and an HTML-rewriting reverse proxy.
pub mod bridge;
pub mod commands;
pub mod config;
pub mod connect;
pub mod diagnostics;
pub mod html;
pub mod response;
pub mod reverse_proxy;
pub mod routing;
pub mod text;
pub mod web;
