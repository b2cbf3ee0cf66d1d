//! The HTTP proxy that the feed connects through: where its address is kept,
//! how a `host:port` address is read, the proxy URL handed to the HTTP client,
//! and the CONNECT tunnel opened to reach the WebSocket server.

use vstd::prelude::*;
use crate::decimal::{IntError, dec_repr, parse_unsigned_spec, parse_u16, decimal_string};
use crate::text::{contains_run, bytes_contain};
use crate::url_target::{UrlTarget, url_target, parse_url_target};

verus! {

// ---------------------------------------------------------------------------
// The proxy address store

/// The shared proxy address. It starts out not set up; once set up it holds
/// an address, the empty address meaning "connect directly".
pub struct ProxyStorage {
    address: Option<String>,
}

/// The characters of a stored address, if the store is set up.
pub open spec fn stored_text(o: Option<String>) -> Option<Seq<char>> {
    match o {
        Some(s) => Some(s@),
        None => None,
    }
}

/// The store after it is set up: an existing address stays.
pub open spec fn after_init(v: Option<Seq<char>>) -> Option<Seq<char>> {
    match v {
        Some(a) => Some(a),
        None => Some(Seq::empty()),
    }
}

/// The store after `addr` is set: only a set-up store takes it.
pub open spec fn after_set(v: Option<Seq<char>>, addr: Seq<char>) -> Option<Seq<char>> {
    match v {
        Some(_) => Some(addr),
        None => None,
    }
}

/// What a reader of the store gets: the address, or the empty one.
pub open spec fn read_address(v: Option<Seq<char>>) -> Seq<char> {
    match v {
        Some(a) => a,
        None => Seq::empty(),
    }
}

impl View for ProxyStorage {
    type V = Option<Seq<char>>;

    closed spec fn view(&self) -> Option<Seq<char>> {
        stored_text(self.address)
    }
}

impl ProxyStorage {
    /// A store that is not set up yet.
    pub fn new() -> (r: ProxyStorage)
        ensures
            r@ == None::<Seq<char>>,
    {
        ProxyStorage { address: None }
    }

    /// The address a connection uses now: the stored one, or the empty one
    /// (a direct connection) when the store is not set up.
    pub fn current_address(&self) -> (r: String)
        ensures
            r@ == read_address(self@),
    {
        match &self.address {
            Some(a) => a.clone(),
            None => String::new(),
        }
    }
}

/// Sets the store up, with the empty address, unless it already is.
pub fn init_proxy_storage(storage: &mut ProxyStorage)
    ensures
        final(storage)@ == after_init(old(storage)@),
{
    if storage.address.is_none() {
        storage.address = Some(String::new());
    }
}

/// Stores `proxy_addr` as the address to connect through. A store that is not
/// set up is left as it is; the result says whether the address was stored.
pub fn set_proxy_address(storage: &mut ProxyStorage, proxy_addr: String) -> (stored: bool)
    ensures
        final(storage)@ == after_set(old(storage)@, proxy_addr@),
        old(storage)@ is Some ==> final(storage)@ == Some(proxy_addr@),
        old(storage)@ is None ==> final(storage)@ is None,
        stored == (old(storage)@ is Some),
{
    if storage.address.is_some() {
        storage.address = Some(proxy_addr);
        true
    } else {
        false
    }
}

/// Once the store is set up, a reader gets the address that was set last.
pub proof fn law_read_after_set(v: Option<Seq<char>>, addr: Seq<char>)
    ensures
        read_address(after_set(after_init(v), addr)) == addr,
{
}

/// Every set on a set-up store takes the address given, the empty one
/// included, and the store stays set up: after any two sets, readers get the
/// second address.
pub proof fn law_set_overwrites(v: Option<Seq<char>>, a: Seq<char>, b: Seq<char>)
    ensures
        v is Some ==> after_set(v, a) == Some(a),
        after_set(after_init(v), a) is Some,
        read_address(after_set(after_set(after_init(v), a), b)) == b,
        read_address(after_set(after_set(after_init(v), Seq::empty()), b)) == b,
{
}

/// Setting the store up again keeps the address it holds.
pub proof fn law_init_keeps_address(v: Option<Seq<char>>)
    ensures
        after_init(after_init(v)) == after_init(v),
        read_address(after_init(v)) == read_address(v),
{
}

/// An address set before the store is set up is lost: readers get the empty
/// address, and setting the store up afterwards does not bring it back.
pub proof fn law_set_before_init_is_lost(addr: Seq<char>)
    ensures
        after_set(None, addr) == None::<Seq<char>>,
        read_address(after_set(None, addr)) == Seq::<char>::empty(),
        read_address(after_init(after_set(None, addr))) == Seq::<char>::empty(),
{
}

/// Whether a proxy is configured: the empty address means a direct connection.
pub fn proxy_is_configured(addr: &str) -> (r: bool)
    ensures
        r == (addr@.len() > 0),
{
    !addr.is_empty()
}

/// The proxy URL for the HTTP client: `http://` and the address, when one is configured.
pub fn http_proxy_url(addr: &str) -> (r: Option<String>)
    ensures
        addr@.len() == 0 ==> r is None,
        addr@.len() > 0 ==> (r matches Some(u) && u@ == "http://"@ + addr@),
{
    if addr.is_empty() {
        None
    } else {
        let mut u = String::from_str("http://");
        u.append(addr);
        Some(u)
    }
}

// ---------------------------------------------------------------------------
// Reading `host:port`

/// `k` is the position of the one and only `:` in `s`.
pub open spec fn sole_colon_at(s: Seq<char>, k: int) -> bool {
    &&& 0 <= k < s.len()
    &&& s[k] == ':'
    &&& forall|j: int| 0 <= j < s.len() && j != k ==> s[j] != ':'
}

/// `s` splits at `:` into exactly two parts.
pub open spec fn has_sole_colon(s: Seq<char>) -> bool {
    exists|k: int| sole_colon_at(s, k)
}

pub open spec fn sole_colon(s: Seq<char>) -> int {
    choose|k: int| sole_colon_at(s, k)
}

/// The part before the `:`.
pub open spec fn host_part(s: Seq<char>) -> Seq<char> {
    s.subrange(0, sole_colon(s))
}

/// The part after the `:`.
pub open spec fn port_part(s: Seq<char>) -> Seq<char> {
    s.subrange(sole_colon(s) + 1, s.len() as int)
}

/// Why a proxy tunnel could not be planned or opened.
#[derive(Debug, PartialEq, Eq)]
pub enum ProxyError {
    /// The address does not split at `:` into exactly two parts; it holds the address.
    InvalidFormat(String),
    /// The part after the `:` is not a port number.
    InvalidPort(IntError),
    /// The server URL does not parse.
    InvalidUrl(url::ParseError),
    /// The server URL has no host.
    NoHost,
    /// The server URL has no port, and its scheme no known default.
    NoPort,
    /// The proxy did not answer CONNECT with a 200; it holds what it answered.
    ConnectRefused(Vec<u8>),
}

/// What reading a `host:port` proxy address gives, error cases included.
pub open spec fn proxy_address_outcome(addr: Seq<char>, r: Result<(String, u16), ProxyError>) -> bool {
    match r {
        Ok((host, port)) => {
            &&& has_sole_colon(addr)
            &&& host@ == host_part(addr)
            &&& parse_unsigned_spec(port_part(addr), u16::MAX as nat) == Ok::<nat, IntError>(port as nat)
        },
        Err(ProxyError::InvalidFormat(a)) => !has_sole_colon(addr) && a@ == addr,
        Err(ProxyError::InvalidPort(e)) => {
            &&& has_sole_colon(addr)
            &&& parse_unsigned_spec(port_part(addr), u16::MAX as nat) == Err::<nat, IntError>(e)
        },
        Err(_) => false,
    }
}

/// Reads a proxy address of the form `host:port`, as the tunnel needs it:
/// split at `:` into exactly two parts, the second a `u16`.
pub fn parse_proxy_address(proxy_addr: &str) -> (r: Result<(String, u16), ProxyError>)
    ensures
        proxy_address_outcome(proxy_addr@, r),
{
    let len = proxy_addr.unicode_len();
    let mut count: usize = 0;
    let mut pos: usize = 0;
    let mut i: usize = 0;
    while i < len
        invariant
            i <= len,
            len == proxy_addr@.len(),
            count <= i,
            count == 0 ==> forall|j: int| 0 <= j < i ==> proxy_addr@[j] != ':',
            count == 1 ==> pos < i && proxy_addr@[pos as int] == ':' && forall|j: int|
                0 <= j < i && j != pos ==> proxy_addr@[j] != ':',
            count >= 2 ==> exists|a: int, b: int|
                0 <= a < b < i && proxy_addr@[a] == ':' && proxy_addr@[b] == ':',
        decreases len - i,
    {
        if proxy_addr.get_char(i) == ':' {
            if count == 0 {
                pos = i;
                count = 1;
            } else {
                if count == 1 {
                    assert(0 <= pos < i && proxy_addr@[pos as int] == ':' && proxy_addr@[i as int] == ':');
                }
                count = 2;
            }
        }
        i = i + 1;
    }
    let ghost s = proxy_addr@;
    if count != 1 {
        assert(!has_sole_colon(s)) by {
            if has_sole_colon(s) {
                let k = choose|k: int| sole_colon_at(s, k);
                if count == 0 {
                    assert(s[k] != ':');
                } else {
                    let (a, b) = choose|a: int, b: int|
                        0 <= a < b < len && s[a] == ':' && s[b] == ':';
                    assert(a == k && b == k);
                }
            }
        }
        return Err(ProxyError::InvalidFormat(String::from_str(proxy_addr)));
    }
    assert(sole_colon_at(s, pos as int));
    assert(sole_colon(s) == pos as int);
    let host = proxy_addr.substring_char(0, pos);
    let port_text = proxy_addr.substring_char(pos + 1, len);
    match parse_u16(port_text) {
        Ok(port) => Ok((String::from_str(host), port)),
        Err(e) => Err(ProxyError::InvalidPort(e)),
    }
}

/// Joining a host without `:` and a port the way the address is written, and
/// reading the address back, gives the host and port again.
pub proof fn law_proxy_address_round_trip(host: Seq<char>, port: u16)
    requires
        forall|j: int| 0 <= j < host.len() ==> host[j] != ':',
    ensures
        ({
            let addr = host + seq![':'] + dec_repr(port as nat);
            &&& has_sole_colon(addr)
            &&& host_part(addr) == host
            &&& parse_unsigned_spec(port_part(addr), u16::MAX as nat) == Ok::<nat, IntError>(port as nat)
        }),
{
    let addr = host + seq![':'] + dec_repr(port as nat);
    crate::decimal::law_decimal_round_trip(port as nat, u16::MAX as nat);
    crate::decimal::lemma_dec_repr_digits(port as nat);
    let k = host.len() as int;
    assert forall|j: int| 0 <= j < addr.len() && j != k implies addr[j] != ':' by {
        if j > k {
            assert(addr[j] == dec_repr(port as nat)[j - k - 1]);
            assert(crate::decimal::is_digit(dec_repr(port as nat)[j - k - 1]));
        } else {
            assert(addr[j] == host[j]);
        }
    }
    assert(sole_colon_at(addr, k));
    assert(sole_colon(addr) == k);
    assert(host_part(addr) =~= host);
    assert(port_part(addr) =~= dec_repr(port as nat));
}

// ---------------------------------------------------------------------------
// The CONNECT tunnel

/// The request that asks the proxy for a tunnel to `host:port`.
pub open spec fn connect_request_text(host: Seq<char>, port: u16) -> Seq<char> {
    "CONNECT "@ + host + ":"@ + dec_repr(port as nat) + " HTTP/1.1\r\nHost: "@ + host + ":"@
        + dec_repr(port as nat) + "\r\n\r\n"@
}

/// How to reach the server through the proxy: where the proxy is, where the
/// tunnel goes, and the request that opens it.
#[derive(Debug, PartialEq, Eq)]
pub struct ProxyTunnel {
    pub proxy_host: String,
    pub proxy_port: u16,
    pub target_host: String,
    pub target_port: u16,
    pub connect_request: String,
}

/// The request that asks the proxy for a tunnel to `host:port`.
pub fn connect_request(host: &str, port: u16) -> (r: String)
    ensures
        r@ == connect_request_text(host@, port),
{
    let port_text = decimal_string(port as u64);
    let mut r = String::from_str("CONNECT ");
    r.append(host);
    r.append(":");
    r.append(port_text.as_str());
    r.append(" HTTP/1.1\r\nHost: ");
    r.append(host);
    r.append(":");
    r.append(port_text.as_str());
    r.append("\r\n\r\n");
    r
}

/// What the tunnel plan is, given the proxy and what URL parsing gave.
pub open spec fn tunnel_outcome(
    proxy_host: Seq<char>,
    proxy_port: u16,
    target: Option<(Option<Seq<char>>, Option<u16>)>,
    r: Result<ProxyTunnel, ProxyError>,
) -> bool {
    match target {
        None => r matches Err(ProxyError::InvalidUrl(_)),
        Some((None, _)) => r matches Err(ProxyError::NoHost),
        Some((Some(_), None)) => r matches Err(ProxyError::NoPort),
        Some((Some(h), Some(p))) => r matches Ok(t) && {
            &&& t.proxy_host@ == proxy_host
            &&& t.proxy_port == proxy_port
            &&& t.target_host@ == h
            &&& t.target_port == p
            &&& t.connect_request@ == connect_request_text(h, p)
        },
    }
}

/// Plans the tunnel from a read proxy address and the result of reading the
/// server URL: the URL must parse and name a host and a port.
pub fn tunnel_from_target(
    proxy_host: String,
    proxy_port: u16,
    target: Result<UrlTarget, url::ParseError>,
) -> (r: Result<ProxyTunnel, ProxyError>)
    ensures
        tunnel_outcome(
            proxy_host@,
            proxy_port,
            match target {
                Ok(t) => Some((crate::url_target::option_text(t.host), t.port)),
                Err(_) => None,
            },
            r,
        ),
        target matches Err(e) ==> r == Err::<ProxyTunnel, ProxyError>(ProxyError::InvalidUrl(e)),
{
    match target {
        Err(e) => Err(ProxyError::InvalidUrl(e)),
        Ok(t) => match t.host {
            None => Err(ProxyError::NoHost),
            Some(host) => match t.port {
                None => Err(ProxyError::NoPort),
                Some(port) => {
                    let connect_request = connect_request(host.as_str(), port);
                    Ok(ProxyTunnel {
                        proxy_host,
                        proxy_port,
                        target_host: host,
                        target_port: port,
                        connect_request,
                    })
                },
            },
        },
    }
}

/// Plans the tunnel to `url` through the proxy at `proxy_addr`: the proxy
/// address is read first, then the URL.
pub fn plan_proxy_tunnel(url: &str, proxy_addr: &str) -> (r: Result<ProxyTunnel, ProxyError>)
    ensures
        !has_sole_colon(proxy_addr@) ==> (r matches Err(ProxyError::InvalidFormat(a)) && a@ == proxy_addr@),
        has_sole_colon(proxy_addr@) ==> match parse_unsigned_spec(port_part(proxy_addr@), u16::MAX as nat) {
            Err(e) => r == Err::<ProxyTunnel, ProxyError>(ProxyError::InvalidPort(e)),
            Ok(p) => tunnel_outcome(host_part(proxy_addr@), p as u16, url_target(url@), r),
        },
{
    let (proxy_host, proxy_port) = match parse_proxy_address(proxy_addr) {
        Ok(parts) => parts,
        Err(e) => return Err(e),
    };
    let target = parse_url_target(url);
    tunnel_from_target(proxy_host, proxy_port, target)
}

/// The byte string `200`.
pub open spec fn status_ok_bytes() -> Seq<u8> {
    seq![50u8, 48u8, 48u8]
}

/// The tunnel is open exactly when the answer holds the three bytes `2`, `0`,
/// `0` one after the other, wherever they stand: every `HTTP/1.1 200 ...`
/// status line opens it, whatever reason phrase follows.
pub proof fn law_connect_accepts_any_200(response: Seq<u8>)
    ensures
        contains_run(response, status_ok_bytes()) <==> exists|i: int|
            0 <= i && i + 3 <= response.len() && #[trigger] response.subrange(i, i + 3) == seq![50u8, 48u8, 48u8],
        forall|rest: Seq<u8>| contains_run(seq![72u8, 84u8, 84u8, 80u8, 47u8, 49u8, 46u8, 49u8, 32u8, 50u8, 48u8, 48u8] + rest, status_ok_bytes()),
{
    assert(status_ok_bytes() =~= seq![50u8, 48u8, 48u8]);
    assert forall|rest: Seq<u8>| contains_run(seq![72u8, 84u8, 84u8, 80u8, 47u8, 49u8, 46u8, 49u8, 32u8, 50u8, 48u8, 48u8] + rest, status_ok_bytes()) by {
        let head = seq![72u8, 84u8, 84u8, 80u8, 47u8, 49u8, 46u8, 49u8, 32u8, 50u8, 48u8, 48u8];
        let h = head + rest;
        assert(head[9] == 50u8 && head[10] == 48u8 && head[11] == 48u8);
        assert(h[9] == head[9] && h[10] == head[10] && h[11] == head[11]);
        assert(h.subrange(9, 12) =~= seq![50u8, 48u8, 48u8]);
        assert(h.subrange(9, 9 + status_ok_bytes().len() as int) == status_ok_bytes());
    }
}

/// Reads the proxy's answer to CONNECT: the tunnel is open when the answer
/// holds `200` anywhere; otherwise the error carries the answer.
pub fn check_connect_response(response: &[u8]) -> (r: Result<(), ProxyError>)
    ensures
        r is Ok <==> contains_run(response@, status_ok_bytes()),
        r is Ok <==> exists|i: int|
            0 <= i && i + 3 <= response@.len() && #[trigger] response@.subrange(i, i + 3) == seq![50u8, 48u8, 48u8],
        r matches Err(e) ==> (e matches ProxyError::ConnectRefused(b) && b@ == response@),
{
    let ok: [u8; 3] = [50u8, 48u8, 48u8];
    assert(ok@ =~= status_ok_bytes());
    if bytes_contain(response, &ok) {
        Ok(())
    } else {
        let mut answer: Vec<u8> = Vec::new();
        let mut i: usize = 0;
        while i < response.len()
            invariant
                i <= response@.len(),
                answer@ == response@.subrange(0, i as int),
            decreases response@.len() - i,
        {
            answer.push(response[i]);
            i = i + 1;
        }
        assert(answer@ =~= response@);
        Err(ProxyError::ConnectRefused(answer))
    }
}

} // verus!
