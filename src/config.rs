//! Rewriting the server's configuration template: every occurrence of the
//! default host and of the default port is replaced, in that order.

use vstd::prelude::*;
use crate::netif::{find_interface_host, selected_host, InterfaceRecord, DEFAULT_PORT, WIFI_INTERFACE};
use crate::text::chars_of;

verus! {

/// Host token of the configuration template.
pub const DEFAULT_HOST: &'static str = "localhost";

/// `s` with every occurrence of `pat` replaced by `rep`, scanning from the
/// left and never letting two replaced occurrences overlap. An empty pattern
/// leaves `s` as it is.
pub open spec fn replaced(s: Seq<char>, pat: Seq<char>, rep: Seq<char>) -> Seq<char>
    decreases s.len(),
{
    if pat.len() == 0 || s.len() < pat.len() {
        s
    } else if s.take(pat.len() as int) == pat {
        rep + replaced(s.skip(pat.len() as int), pat, rep)
    } else {
        seq![s[0]] + replaced(s.skip(1), pat, rep)
    }
}

/// Whether `p` occurs in `x` at position `i`.
fn occurs_at(x: &Vec<char>, i: usize, p: &Vec<char>) -> (r: bool)
    requires
        i + p.len() <= x.len(),
    ensures
        r == (x@.subrange(i as int, i + p.len()) == p@),
{
    let mut k: usize = 0;
    while k < p.len()
        invariant
            i + p.len() <= x.len(),
            k <= p.len(),
            forall|j: int| 0 <= j < k ==> x@[i + j] == p@[j],
        decreases p.len() - k,
    {
        if x[i + k] != p[k] {
            assert(x@.subrange(i as int, i + p.len())[k as int] != p@[k as int]);
            return false;
        }
        k = k + 1;
    }
    assert(x@.subrange(i as int, i + p.len()) =~= p@);
    true
}

/// `text` with every occurrence of `pat` replaced by `rep`, left to right.
pub fn replace_all(text: &str, pat: &str, rep: &str) -> (r: String)
    requires
        pat@.len() > 0,
    ensures
        r@ == replaced(text@, pat@, rep@),
{
    let x = chars_of(text);
    let p = chars_of(pat);
    let n = x.len();
    let m = p.len();
    let mut out = String::new();
    let mut run: usize = 0;
    let mut i: usize = 0;
    assert(x@.skip(0) =~= x@);
    assert(out@ + x@.subrange(0, 0) + replaced(x@, p@, rep@) =~= replaced(x@, p@, rep@));
    while i <= n && n - i >= m
        invariant
            x@ == text@,
            p@ == pat@,
            n == x.len(),
            m == p.len(),
            m > 0,
            run <= i <= n,
            out@ + x@.subrange(run as int, i as int) + replaced(x@.skip(i as int), p@, rep@)
                == replaced(x@, p@, rep@),
        decreases n - i,
    {
        let ghost rest = x@.skip(i as int);
        assert(rest.take(m as int) =~= x@.subrange(i as int, i + m));
        if occurs_at(&x, i, &p) {
            assert(rest.skip(m as int) =~= x@.skip(i + m));
            let ghost before = out@;
            out.append(text.substring_char(run, i));
            out.append(rep);
            assert(out@ + x@.subrange((i + m) as int, (i + m) as int)
                + replaced(x@.skip(i + m), p@, rep@)
                =~= before + x@.subrange(run as int, i as int) + replaced(rest, p@, rep@));
            i = i + m;
            run = i;
        } else {
            assert(rest.skip(1) =~= x@.skip(i + 1));
            assert(rest[0] == x@[i as int]);
            assert(out@ + x@.subrange(run as int, i + 1) + replaced(x@.skip(i + 1), p@, rep@)
                =~= out@ + x@.subrange(run as int, i as int) + replaced(rest, p@, rep@));
            i = i + 1;
        }
    }
    let ghost before = out@;
    out.append(text.substring_char(run, n));
    assert(x@.skip(i as int) =~= x@.subrange(i as int, n as int));
    assert(out@ =~= before + x@.subrange(run as int, i as int) + replaced(x@.skip(i as int), p@, rep@));
    out
}

/// The template `t` with every `localhost` replaced by `host`, and then every
/// `8000` of that text replaced by `port`.
pub open spec fn rewritten(t: Seq<char>, host: Seq<char>, port: Seq<char>) -> Seq<char> {
    replaced(replaced(t, DEFAULT_HOST@, host), DEFAULT_PORT@, port)
}

/// The configuration written at startup from template `t` and the host's
/// interfaces `ifs`: the template rewritten for the `Wi-Fi` interface's IPv4
/// address and the default port; `None`, and nothing written, when that
/// interface has no IPv4 address.
pub open spec fn startup_text(t: Seq<char>, ifs: Seq<InterfaceRecord>) -> Option<Seq<char>> {
    match selected_host(ifs, WIFI_INTERFACE@) {
        Some(h) => Some(rewritten(t, h, DEFAULT_PORT@)),
        None => None,
    }
}

/// The configuration text for a server bound to `host` and `port`.
pub fn rewrite_config(template: &str, host: &str, port: &str) -> (r: String)
    ensures
        r@ == rewritten(template@, host@, port@),
{
    proof {
        reveal_strlit("localhost");
        reveal_strlit("8000");
    }
    let with_host = replace_all(template, DEFAULT_HOST, host);
    replace_all(with_host.as_str(), DEFAULT_PORT, port)
}

/// The configuration to write at startup, if the `Wi-Fi` interface has an
/// IPv4 address.
pub fn startup_config(template: &str, interfaces: &Vec<InterfaceRecord>) -> (r: Option<String>)
    ensures
        r matches Some(c) ==> startup_text(template@, interfaces@) == Some(c@),
        r is None ==> startup_text(template@, interfaces@) is None,
{
    match find_interface_host(interfaces, WIFI_INTERFACE) {
        Some(host) => Some(rewrite_config(template, host.as_str(), DEFAULT_PORT)),
        None => None,
    }
}

/// Replacing a pattern by itself changes nothing.
pub proof fn lemma_replace_by_itself(s: Seq<char>, pat: Seq<char>)
    ensures
        replaced(s, pat, pat) == s,
    decreases s.len(),
{
    if pat.len() == 0 || s.len() < pat.len() {
    } else if s.take(pat.len() as int) == pat {
        lemma_replace_by_itself(s.skip(pat.len() as int), pat);
        assert(pat + s.skip(pat.len() as int) =~= s);
    } else {
        lemma_replace_by_itself(s.skip(1), pat);
        assert(seq![s[0]] + s.skip(1) =~= s);
    }
}

/// When the `Wi-Fi` interface has an IPv4 address, the configuration written
/// at startup is the template with that address in place of every
/// `localhost`, and the port text as it was.
pub proof fn lemma_startup_binds_wifi_host(t: Seq<char>, ifs: Seq<InterfaceRecord>)
    requires
        selected_host(ifs, WIFI_INTERFACE@) is Some,
    ensures
        startup_text(t, ifs) == Some(
            replaced(t, DEFAULT_HOST@, selected_host(ifs, WIFI_INTERFACE@)->0),
        ),
{
    lemma_replace_by_itself(
        replaced(t, DEFAULT_HOST@, selected_host(ifs, WIFI_INTERFACE@)->0),
        DEFAULT_PORT@,
    );
}

} // verus!
