//! Preview-port probing decisions and preview URLs. The actual binding of a
//! TCP listener happens outside the library; the library decides which port
//! to try next and when the range is exhausted, and renders the URL.

use vstd::prelude::*;
use vstd::string::*;
use crate::text::{dec_str, has_prefix, u64_to_string};

verus! {

/// First port probed for a preview server; chosen above common
/// development-server defaults.
pub const PORT_RANGE_START: u16 = 3618;

/// End of the probed port range, exclusive.
pub const PORT_RANGE_END: u16 = 3999;

/// The outcome of probing one port.
#[derive(Debug, Clone, PartialEq, Eq)]
pub enum ProbeOutcome {
    /// The port bound successfully; use it.
    Use(u16),
    /// The port was taken; try this next one.
    Next(u16),
    /// The whole range is taken.
    Exhausted,
}

/// Decide what to do after one bind attempt in the linear probe.
pub fn probe_step(port: u16, bind_ok: bool) -> (r: ProbeOutcome)
    requires
        port < PORT_RANGE_END,
    ensures
        bind_ok ==> r == ProbeOutcome::Use(port),
        !bind_ok && port + 1 < PORT_RANGE_END ==> r == ProbeOutcome::Next((port + 1) as u16),
        !bind_ok && port + 1 >= PORT_RANGE_END ==> r == ProbeOutcome::Exhausted,
{
    if bind_ok {
        ProbeOutcome::Use(port)
    } else if port + 1 < PORT_RANGE_END {
        ProbeOutcome::Next(port + 1)
    } else {
        ProbeOutcome::Exhausted
    }
}

/// The preview URL for a port: `http://127.0.0.1:` followed by the port in
/// decimal.
pub open spec fn spec_preview_url(port: u16) -> Seq<char> {
    "http://127.0.0.1:"@ + dec_str(port as nat)
}

/// Render the preview URL for a bound port.
pub fn preview_url(port: u16) -> (r: String)
    ensures
        r@ == spec_preview_url(port),
{
    let mut s = String::from_str("http://127.0.0.1:");
    let digits = u64_to_string(port as u64);
    s.append(digits.as_str());
    s
}

pub proof fn lemma_dec_str_len(n: nat)
    ensures
        dec_str(n).len() >= 1,
    decreases n,
{
    if n >= 10 {
        lemma_dec_str_len(n / 10);
    }
}

/// Law: every preview URL is non-empty, starts with `http://127.0.0.1:`, and
/// what follows that prefix is exactly the port rendered in decimal.
pub proof fn lemma_preview_url_form(port: u16)
    ensures
        spec_preview_url(port).len() > 0,
        has_prefix(spec_preview_url(port), "http://127.0.0.1:"@),
        spec_preview_url(port).skip("http://127.0.0.1:"@.len() as int) == dec_str(port as nat),
{
    lemma_dec_str_len(port as nat);
    let u = spec_preview_url(port);
    let p = "http://127.0.0.1:"@;
    assert(u.subrange(0, p.len() as int) =~= p);
    assert(u.skip(p.len() as int) =~= dec_str(port as nat));
}

} // verus!
