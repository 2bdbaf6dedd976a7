//! The widget web server: which ports it tries, how it reports failing to
//! bind, the address it shows, and the page it serves when the template
//! cannot be rendered.

use vstd::prelude::*;

use crate::text::{append_str, decimal, decimal_string, str_equals, string_from_chars};

verus! {

/// A running widget server: the host it is bound to and the port it got.
#[derive(Clone, Debug)]
pub struct WebServer {
    pub host: String,
    pub port: u16,
}

/// How many consecutive ports are tried, starting at the preferred one.
pub const PORT_ATTEMPTS: u16 = 100;

/// The ports to try, in order: the preferred port and the ones after it,
/// a hundred in all, stopping early at the last port number.
pub open spec fn candidate_port_seq(preferred: u16) -> Seq<u16> {
    let n = if 65536 - preferred < 100 { 65536 - preferred } else { 100int };
    Seq::new(n as nat, |k: int| (preferred + k) as u16)
}

/// The host shown in the widget's address: the loopback address when the
/// server listens on every interface, else the host itself.
pub open spec fn display_host(host: Seq<char>) -> Seq<char> {
    if host == "0.0.0.0"@ || host == "::"@ {
        "127.0.0.1"@
    } else {
        host
    }
}

/// The error text when no port in the range could be bound.
pub open spec fn bind_error_text(host: Seq<char>, preferred: u16) -> Seq<char> {
    "Unable to bind to "@ + host + ":"@ + decimal(preferred as nat) + "-"@ + decimal((preferred + 99) as nat)
}

/// The page served in place of the widget when it cannot be rendered.
pub open spec fn warning_page(reason: Seq<char>) -> Seq<char> {
    "<div style='color:red;background:#222;padding:1em;'>Warning: "@ + reason + "</div>"@
}

/// What to do after trying to bind a candidate port.
#[derive(Clone, Copy, Debug, PartialEq, Eq, Structural)]
pub enum BindStep {
    /// The port bound: serve on it.
    Use(u16),
    /// It did not bind: try the candidate with this index next.
    Try(u16),
    /// No candidate is left.
    GiveUp,
}

/// The step after trying candidate `k` (the port `preferred + k`): use it
/// when it bound, else try the next candidate while one is left.
pub open spec fn bind_step(preferred: u16, k: u16, bound: bool) -> BindStep {
    if bound {
        BindStep::Use((preferred + k) as u16)
    } else if k + 1 < candidate_port_seq(preferred).len() {
        BindStep::Try((k + 1) as u16)
    } else {
        BindStep::GiveUp
    }
}

/// The step after trying to bind candidate `k` (see `bind_step`). Starting
/// at candidate 0, the candidates are tried in order, and the first port
/// that binds is used.
pub fn next_bind_step(preferred: u16, k: u16, bound: bool) -> (r: BindStep)
    requires
        k < candidate_port_seq(preferred).len(),
    ensures
        r == bind_step(preferred, k, bound),
        r matches BindStep::Use(p) ==> p == candidate_port_seq(preferred)[k as int],
{
    if bound {
        BindStep::Use(preferred + k)
    } else if k + 1 < PORT_ATTEMPTS && (k as u32) + 1 + (preferred as u32) <= 65535 {
        BindStep::Try(k + 1)
    } else {
        BindStep::GiveUp
    }
}

/// The error when no port in the range could be bound:
/// `Unable to bind to {host}:{preferred}-{preferred + 99}`. The last port
/// of the message must be a port number.
pub fn bind_error_message(host: &str, preferred: u16) -> (r: String)
    requires
        preferred <= 65436,
    ensures
        r@ == bind_error_text(host@, preferred),
{
    let mut out: Vec<char> = Vec::new();
    append_str(&mut out, "Unable to bind to ");
    append_str(&mut out, host);
    append_str(&mut out, ":");
    let first = decimal_string(preferred as u64);
    append_str(&mut out, first.as_str());
    append_str(&mut out, "-");
    let last = decimal_string((preferred + 99) as u64);
    append_str(&mut out, last.as_str());
    string_from_chars(&out)
}

/// The body served for the widget page: the rendered page, or a warning
/// that gives the reason it could not be rendered.
pub fn widget_page(rendered: Result<String, String>) -> (r: String)
    ensures
        r@ == (match rendered {
            Ok(html) => html@,
            Err(reason) => warning_page(reason@),
        }),
{
    match rendered {
        Ok(html) => html,
        Err(reason) => {
            let mut out: Vec<char> = Vec::new();
            append_str(&mut out, "<div style='color:red;background:#222;padding:1em;'>Warning: ");
            append_str(&mut out, reason.as_str());
            append_str(&mut out, "</div>");
            string_from_chars(&out)
        },
    }
}

impl WebServer {
    /// The widget's address for display: `http://{host}:{port}/`, with the
    /// loopback address in place of a listen-on-all host (`0.0.0.0`, `::`).
    pub fn get_url(&self) -> (r: String)
        ensures
            r@ == "http://"@ + display_host(self.host@) + ":"@ + decimal(self.port as nat) + "/"@,
    {
        let host = self.host.as_str();
        let shown: &str = if str_equals(host, "0.0.0.0") || str_equals(host, "::") {
            "127.0.0.1"
        } else {
            host
        };
        let mut out: Vec<char> = Vec::new();
        append_str(&mut out, "http://");
        append_str(&mut out, shown);
        append_str(&mut out, ":");
        let p = decimal_string(self.port as u64);
        append_str(&mut out, p.as_str());
        append_str(&mut out, "/");
        string_from_chars(&out)
    }
}

/// The port served on when the candidates are tried in order from index
/// `k`, where `binds[i]` says whether candidate `i` binds; `None` when none
/// from `k` on does.
pub open spec fn scan_from(preferred: u16, binds: Seq<bool>, k: int) -> Option<u16>
    decreases binds.len() - k,
{
    if k < 0 || k >= binds.len() || k >= candidate_port_seq(preferred).len() {
        None
    } else {
        match bind_step(preferred, k as u16, binds[k]) {
            BindStep::Use(p) => Some(p),
            BindStep::Try(_) => scan_from(preferred, binds, k + 1),
            BindStep::GiveUp => None,
        }
    }
}

/// The first index from `k` on at which `binds` holds.
pub open spec fn first_bound_from(binds: Seq<bool>, k: int) -> Option<int>
    decreases binds.len() - k,
{
    if k < 0 || k >= binds.len() {
        None
    } else if binds[k] {
        Some(k)
    } else {
        first_bound_from(binds, k + 1)
    }
}

/// Stepping through the candidates from the first serves on the least
/// candidate port that binds, and gives up when none does.
pub proof fn lemma_scan_takes_least_bound_port(preferred: u16, binds: Seq<bool>, k: int)
    requires
        binds.len() == candidate_port_seq(preferred).len(),
        0 <= k,
    ensures
        scan_from(preferred, binds, k) == (match first_bound_from(binds, k) {
            Some(i) => Some((preferred + i) as u16),
            None => None::<u16>,
        }),
    decreases binds.len() - k,
{
    if k < binds.len() {
        lemma_scan_takes_least_bound_port(preferred, binds, k + 1);
    }
}

/// The address shown names the server's own host and port, except that a
/// listen-on-all host (`0.0.0.0` or `::`) is shown as `127.0.0.1`.
pub proof fn lemma_url_names_host(host: Seq<char>, port: u16)
    ensures
        host != "0.0.0.0"@ && host != "::"@ ==> "http://"@ + display_host(host) + ":"@ + decimal(port as nat)
            + "/"@ == "http://"@ + host + ":"@ + decimal(port as nat) + "/"@,
        host == "0.0.0.0"@ || host == "::"@ ==> "http://"@ + display_host(host) + ":"@ + decimal(port as nat)
            + "/"@ == "http://127.0.0.1:"@ + decimal(port as nat) + "/"@,
{
    reveal_strlit("http://");
    reveal_strlit("127.0.0.1");
    reveal_strlit(":");
    reveal_strlit("http://127.0.0.1:");
    assert("http://"@ + "127.0.0.1"@ + ":"@ =~= "http://127.0.0.1:"@);
}

/// The ports tried start at the preferred one, go up one at a time, and
/// stay within a hundred of it.
pub proof fn lemma_candidate_ports(preferred: u16)
    ensures
        candidate_port_seq(preferred).len() >= 1,
        candidate_port_seq(preferred)[0] == preferred,
        forall|k: int|
            0 <= k < candidate_port_seq(preferred).len() ==> #[trigger] candidate_port_seq(preferred)[k]
                == preferred + k && k < 100,
        preferred <= 65436 ==> candidate_port_seq(preferred).len() == 100,
{
}

} // verus!
