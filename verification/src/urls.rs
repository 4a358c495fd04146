//! Builders for the identifier and URL strings the client derives from a
//! server entry: the connection URL handed to the driver, the key a server
//! is tracked under, and the chat-completions endpoint of an OpenAI-style
//! base URL.
use crate::structs::Server;
use crate::text::{dec_digits, u16_to_string};
use vstd::prelude::*;

verus! {

/// The `postgres://` connection URL for the given credentials, host, port
/// and database.
pub fn connection_url(user: &str, password: &str, ip: &str, port: u16, database: &str) -> (r:
    String)
    ensures
        r@ == "postgres://"@ + user@ + ":"@ + password@ + "@"@ + ip@ + ":"@ + dec_digits(
            port as nat,
        ) + "/"@ + database@,
{
    let mut r = String::from_str("postgres://");
    r.append(user);
    r.append(":");
    r.append(password);
    r.append("@");
    r.append(ip);
    r.append(":");
    let p = u16_to_string(port);
    r.append(p.as_str());
    r.append("/");
    r.append(database);
    r
}

/// The key a server is tracked under: its address, port and user joined
/// into `server:<ip>:<port>:<user>`.
pub fn server_id(server: &Server) -> (r: String)
    ensures
        r@ == "server:"@ + server.ip@ + ":"@ + dec_digits(server.port as nat) + ":"@
            + server.user@,
{
    let mut r = String::from_str("server:");
    r.append(server.ip.as_str());
    r.append(":");
    let p = u16_to_string(server.port);
    r.append(p.as_str());
    r.append(":");
    r.append(server.user.as_str());
    r
}

/// The chat-completions endpoint under an OpenAI-style base URL: a `/` is
/// inserted unless the base already ends with one.
pub fn chat_completions_url(base_url: &str) -> (r: String)
    ensures
        r@ == if base_url@.len() > 0 && base_url@.last() == '/' {
            base_url@ + "chat/completions"@
        } else {
            base_url@ + "/chat/completions"@
        },
{
    let len = base_url.unicode_len();
    let mut r = base_url.to_owned();
    if len > 0 && base_url.get_char(len - 1) == '/' {
        r.append("chat/completions");
    } else {
        r.append("/chat/completions");
    }
    r
}

} // verus!
