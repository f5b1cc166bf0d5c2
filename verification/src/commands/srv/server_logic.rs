//! `devrs srv`: choosing the port to serve on and announcing the server.

use crate::text::{decimal, decimal_string, push_text, texts};
use vstd::prelude::*;

verus! {

/// How many ports are tried, from the requested one upwards.
pub const MAX_PORT_ATTEMPTS: u8 = 10;

/// The error when no port was free.
pub open spec fn no_port_error(host: Seq<char>, start: u16, max_attempts: u8) -> Seq<char> {
    "Could not find an available port on host "@ + host + " starting from port "@ + decimal(
        start as nat,
    ) + " after trying "@ + decimal(max_attempts as nat) + " ports."@
}

/// The error when no port was free.
fn no_port_message(host: &str, start: u16, max_attempts: u8) -> (r: String)
    ensures
        r@ == no_port_error(host@, start, max_attempts),
{
    let mut m = "Could not find an available port on host ".to_string();
    m.append(host);
    m.append(" starting from port ");
    let s = decimal_string(start as u128);
    m.append(s.as_str());
    m.append(" after trying ");
    let a = decimal_string(max_attempts as u128);
    m.append(a.as_str());
    m.append(" ports.");
    m
}

/// The first port to try: the requested one, unless no attempt is allowed.
pub fn first_port(host: &str, start: u16, max_attempts: u8) -> (r: Result<u16, String>)
    ensures
        max_attempts > 0 ==> r == Ok::<u16, String>(start),
        max_attempts == 0 ==> (r matches Err(e) && e@ == no_port_error(host@, start, max_attempts)),
{
    if max_attempts > 0 {
        Ok(start)
    } else {
        Err(no_port_message(host, start, max_attempts))
    }
}

/// After the port `current` of attempt `attempt` (counted from 0) could not be bound:
/// the next port up, or the error once `max_attempts` ports were tried or no port is
/// left above `current`.
pub fn after_failed_bind(host: &str, start: u16, max_attempts: u8, attempt: u8, current: u16) -> (r:
    Result<u16, String>)
    ensures
        attempt + 1 < max_attempts && current < u16::MAX ==> r == Ok::<u16, String>(
            (current + 1) as u16,
        ),
        attempt + 1 >= max_attempts || current == u16::MAX ==> (r matches Err(e) && e@
            == no_port_error(host@, start, max_attempts)),
{
    if attempt < max_attempts && max_attempts - attempt > 1 && current < u16::MAX {
        Ok(current + 1)
    } else {
        Err(no_port_message(host, start, max_attempts))
    }
}

/// The lines announcing the server: the directory, the local URL, the network URL when
/// an address other than `localhost` is known, the bound address, and the settings.
pub open spec fn banner(
    directory: Seq<char>,
    port: u16,
    local_ip: Seq<char>,
    bound: Seq<char>,
    index: Seq<char>,
    cors: bool,
    hidden: bool,
) -> Seq<Seq<char>> {
    let flag = |b: bool| if b { "true"@ } else { "false"@ };
    seq![
        Seq::empty(),
        "================================================================="@,
        "📂 Serving files from: "@ + directory,
        "🌐 Local URL:         http://localhost:"@ + decimal(port as nat),
    ] + (if local_ip != "localhost"@ {
        seq!["🔗 Network URL:       http://"@ + local_ip + ":"@ + decimal(port as nat)]
    } else {
        Seq::empty()
    }) + seq![
        "⚙️  Binding to address: "@ + bound,
        "❓ Index file:        "@ + index,
        "🔒 CORS enabled:      "@ + flag(cors),
        "👻 Show hidden files: "@ + flag(hidden),
        "================================================================="@,
        Seq::empty(),
        "Server starting! Press Ctrl+C to stop."@,
    ]
}

/// The lines announcing the server.
pub fn banner_lines(
    directory: &str,
    port: u16,
    local_ip: &str,
    bound: &str,
    index: &str,
    cors: bool,
    hidden: bool,
) -> (r: Vec<String>)
    ensures
        texts(r@) == banner(directory@, port, local_ip@, bound@, index@, cors, hidden),
{
    let mut r: Vec<String> = Vec::new();
    push_text(&mut r, String::new());
    push_text(&mut r, "=================================================================".to_string());
    let mut a = "📂 Serving files from: ".to_string();
    a.append(directory);
    push_text(&mut r, a);
    let p = decimal_string(port as u128);
    let mut b = "🌐 Local URL:         http://localhost:".to_string();
    b.append(p.as_str());
    push_text(&mut r, b);
    let local = crate::text::str_is(local_ip, "localhost");
    if !local {
        let mut c = "🔗 Network URL:       http://".to_string();
        c.append(local_ip);
        c.append(":");
        c.append(p.as_str());
        push_text(&mut r, c);
    }
    let mut d = "⚙️  Binding to address: ".to_string();
    d.append(bound);
    push_text(&mut r, d);
    let mut e = "❓ Index file:        ".to_string();
    e.append(index);
    push_text(&mut r, e);
    let mut f = "🔒 CORS enabled:      ".to_string();
    f.append(if cors { "true" } else { "false" });
    push_text(&mut r, f);
    let mut g = "👻 Show hidden files: ".to_string();
    g.append(if hidden { "true" } else { "false" });
    push_text(&mut r, g);
    push_text(&mut r, "=================================================================".to_string());
    push_text(&mut r, String::new());
    push_text(&mut r, "Server starting! Press Ctrl+C to stop.".to_string());
    assert(texts(r@) =~= banner(directory@, port, local_ip@, bound@, index@, cors, hidden));
    r
}

} // verus!
