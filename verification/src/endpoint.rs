//! The backend address, and the script that tells a page about it.

use vstd::prelude::*;
use crate::decimal::{decimal, is_digit, lemma_decimal_shape, push_decimal};

verus! {

/// Name of the environment variable in which the backend finds its port.
pub const BACKEND_PORT_VARIABLE: &'static str = "CLOVIS_BACKEND_PORT";

/// Socket address to bind a listener to when a port is to be reserved: the
/// loopback interface, and port zero for the operating system to pick one.
pub const RESERVATION_ADDRESS: &'static str = "127.0.0.1:0";

/// Socket address of `port` on the loopback interface.
pub open spec fn loopback_socket_text(port: u16) -> Seq<char> {
    "127.0.0.1:"@ + decimal(port as nat)
}

/// Base URL of the backend that listens on `port` of the loopback interface.
pub open spec fn backend_url_text(port: u16) -> Seq<char> {
    "http://127.0.0.1:"@ + decimal(port as nat)
}

/// Text of the statement that assigns `value`, between single quotes, to the
/// global that pages read the backend address from.
pub open spec fn api_base_script_text(value: Seq<char>) -> Seq<char> {
    "window.__CLOVIS_API_BASE__ = '"@ + value + "';"@
}

/// Whether `c` stands for itself between single quotes in a JavaScript
/// string literal: it neither ends the literal, nor starts an escape, nor
/// breaks the line.
pub open spec fn is_plain_in_quotes(c: char) -> bool {
    c != '\'' && c != '\\' && c != '\n' && c != '\r' && c != '\u{2028}' && c != '\u{2029}'
}

/// Whether every character of `value` stands for itself between single quotes.
pub open spec fn is_plain_text(value: Seq<char>) -> bool {
    forall|i: int| 0 <= i < value.len() ==> is_plain_in_quotes(#[trigger] value[i])
}

/// Whether `script` is a single assignment statement that gives the global
/// the string `value`: the fixed left-hand side, then `value` as a quoted
/// literal that needs no escape, then the closing quote and semicolon.
pub open spec fn assigns_api_base(script: Seq<char>, value: Seq<char>) -> bool {
    script == api_base_script_text(value) && is_plain_text(value)
}

/// The base URL of the backend on `port`.
pub fn backend_url(port: u16) -> (url: String)
    ensures
        url@ == backend_url_text(port),
{
    let mut url = String::from_str("http://127.0.0.1:");
    push_decimal(&mut url, port);
    url
}

/// The script to evaluate in a page after it has loaded, so that the page
/// finds the backend at `url`. The text of `url` is put between the quotes as
/// it is, so the statement is well formed where `url` is plain text.
pub fn api_base_script(url: &str) -> (script: String)
    ensures
        script@ == api_base_script_text(url@),
        is_plain_text(url@) ==> assigns_api_base(script@, url@),
{
    let mut script = String::from_str("window.__CLOVIS_API_BASE__ = '");
    script.append(url);
    script.append("';");
    script
}

/// A port is reserved on the interface that the backend's URL names: the
/// reservation binds port zero of the loopback interface, and the URL of the
/// backend on `port` is the HTTP scheme before that interface's socket
/// address for `port`.
pub proof fn lemma_url_names_reserved_interface(port: u16)
    ensures
        RESERVATION_ADDRESS@ == loopback_socket_text(0),
        backend_url_text(port) == "http://"@ + loopback_socket_text(port),
{
    reveal_strlit("127.0.0.1:0");
    reveal_strlit("127.0.0.1:");
    reveal_strlit("http://");
    reveal_strlit("http://127.0.0.1:");
}

/// For every port, the script built from the backend's URL is a well-formed
/// assignment of exactly that URL: nothing in the URL closes the quotes early.
pub proof fn lemma_script_assigns_backend_url(port: u16)
    ensures
        assigns_api_base(api_base_script_text(backend_url_text(port)), backend_url_text(port)),
{
    reveal_strlit("http://127.0.0.1:");
    lemma_decimal_shape(port as nat);
}

} // verus!
