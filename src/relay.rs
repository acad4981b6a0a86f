//! The relay engine: what is sent upstream for an inbound request, and
//! which of upstream's headers reach the client.

use vstd::prelude::*;

use crate::text::{eq_ignore_ascii_case, same_ignoring_ascii_case};

verus! {

/// One header line: its name and its value.
#[derive(Debug)]
pub struct Header {
    pub name: String,
    pub value: String,
}

impl View for Header {
    type V = (Seq<char>, Seq<char>);

    open spec fn view(&self) -> (Seq<char>, Seq<char>) {
        (self.name@, self.value@)
    }
}

impl Header {
    pub fn new(name: &str, value: &str) -> (r: Header)
        ensures
            r@ == (name@, value@),
    {
        Header { name: String::from_str(name), value: String::from_str(value) }
    }

    fn duplicate(&self) -> (r: Header)
        ensures
            r@ == self@,
    {
        Header { name: self.name.clone(), value: self.value.clone() }
    }
}

/// The header lines of `hs` as pairs of name and value.
pub open spec fn headers_view(hs: Seq<Header>) -> Seq<(Seq<char>, Seq<char>)> {
    hs.map_values(|h: Header| h@)
}

/// Header `h` carries the name `name`; header names ignore ASCII case.
pub open spec fn is_named(h: (Seq<char>, Seq<char>), name: Seq<char>) -> bool {
    same_ignoring_ascii_case(h.0, name)
}

/// `hs` with every line named `name` removed, the others kept in order.
pub open spec fn drop_named(
    hs: Seq<(Seq<char>, Seq<char>)>,
    name: Seq<char>,
) -> Seq<(Seq<char>, Seq<char>)> {
    hs.filter(|h: (Seq<char>, Seq<char>)| !is_named(h, name))
}

/// Copies `headers` without the lines named `name`.
pub fn without_header(headers: &Vec<Header>, name: &str) -> (r: Vec<Header>)
    ensures
        headers_view(r@) == drop_named(headers_view(headers@), name@),
{
    let ghost all = headers_view(headers@);
    let ghost pred = |h: (Seq<char>, Seq<char>)| !is_named(h, name@);
    let mut out: Vec<Header> = Vec::new();
    let mut i: usize = 0;
    assert(all.take(0) =~= Seq::<(Seq<char>, Seq<char>)>::empty());
    proof {
        reveal(Seq::filter);
    }
    while i < headers.len()
        invariant
            i <= headers@.len(),
            all == headers_view(headers@),
            pred == (|h: (Seq<char>, Seq<char>)| !is_named(h, name@)),
            headers_view(out@) == all.take(i as int).filter(pred),
        decreases headers@.len() - i,
    {
        let h = &headers[i];
        assert(all.take(i as int + 1).drop_last() =~= all.take(i as int));
        assert(all.take(i as int + 1).last() == h@);
        proof {
            reveal(Seq::filter);
        }
        if !eq_ignore_ascii_case(h.name.as_str(), name) {
            let ghost before = out@;
            out.push(h.duplicate());
            assert(headers_view(out@) =~= headers_view(before).push(h@));
        }
        i = i + 1;
    }
    assert(all.take(headers@.len() as int) =~= all);
    out
}

/// The text of an optional `&str`.
pub open spec fn str_opt_view(o: Option<&str>) -> Option<Seq<char>> {
    match o {
        Some(s) => Some(s@),
        None => None,
    }
}

/// The text of an optional `String`.
pub open spec fn string_opt_view(o: Option<String>) -> Option<Seq<char>> {
    match o {
        Some(s) => Some(s@),
        None => None,
    }
}

/// Request headers as they go upstream: every `Host` line is dropped, since
/// the outbound request names its own authority, and where the peer's address
/// is known an `X-Forwarded-For` line carrying it is added last. A further
/// line of that name extends the list an earlier one started.
pub open spec fn forwarded_request_headers(
    hs: Seq<(Seq<char>, Seq<char>)>,
    peer: Option<Seq<char>>,
) -> Seq<(Seq<char>, Seq<char>)> {
    match peer {
        Some(p) => drop_named(hs, "host"@).push(("x-forwarded-for"@, p)),
        None => drop_named(hs, "host"@),
    }
}

/// The header lines sent upstream for an inbound request with `headers`,
/// from a peer at address `peer` when it is known.
pub fn forward_request_headers(headers: &Vec<Header>, peer: Option<&str>) -> (r: Vec<Header>)
    ensures
        headers_view(r@) == forwarded_request_headers(
            headers_view(headers@),
            str_opt_view(peer),
        ),
{
    let mut out = without_header(headers, "host");
    match peer {
        Some(p) => {
            let ghost before = out@;
            out.push(Header::new("x-forwarded-for", p));
            assert(headers_view(out@) =~= headers_view(before).push(("x-forwarded-for"@, p@)));
        },
        None => {},
    }
    out
}

/// The header lines of upstream's response as the client gets them: all
/// but `Connection`, which only concerns the hop between relay and upstream.
pub fn forward_response_headers(headers: &Vec<Header>) -> (r: Vec<Header>)
    ensures
        headers_view(r@) == drop_named(headers_view(headers@), "connection"@),
        forall|i: int|
            0 <= i < r@.len() ==> !is_named(#[trigger] headers_view(r@)[i], "connection"@),
{
    let out = without_header(headers, "connection");
    proof {
        let pred = |h: (Seq<char>, Seq<char>)| !is_named(h, "connection"@);
        assert forall|i: int| 0 <= i < out@.len() implies !is_named(
            #[trigger] headers_view(out@)[i],
            "connection"@,
        ) by {
            headers_view(headers@).lemma_filter_pred(pred, i);
        }
    }
    out
}

/// The decimal digit for `d`, which is below ten.
pub open spec fn digit_char(d: nat) -> char {
    if d == 0 {
        '0'
    } else if d == 1 {
        '1'
    } else if d == 2 {
        '2'
    } else if d == 3 {
        '3'
    } else if d == 4 {
        '4'
    } else if d == 5 {
        '5'
    } else if d == 6 {
        '6'
    } else if d == 7 {
        '7'
    } else if d == 8 {
        '8'
    } else {
        '9'
    }
}

/// `n` written in decimal, without leading zeros.
pub open spec fn decimal(n: nat) -> Seq<char>
    decreases n,
{
    if n < 10 {
        seq![digit_char(n)]
    } else {
        decimal(n / 10).push(digit_char(n % 10))
    }
}

fn digit_text(d: u16) -> (r: &'static str)
    requires
        d < 10,
    ensures
        r@ == seq![digit_char(d as nat)],
{
    proof {
        reveal_strlit("0");
        reveal_strlit("1");
        reveal_strlit("2");
        reveal_strlit("3");
        reveal_strlit("4");
        reveal_strlit("5");
        reveal_strlit("6");
        reveal_strlit("7");
        reveal_strlit("8");
        reveal_strlit("9");
    }
    let r = match d {
        0 => "0",
        1 => "1",
        2 => "2",
        3 => "3",
        4 => "4",
        5 => "5",
        6 => "6",
        7 => "7",
        8 => "8",
        _ => "9",
    };
    assert(r@ =~= seq![digit_char(d as nat)]);
    r
}

fn append_decimal(out: &mut String, n: u16)
    ensures
        final(out)@ == old(out)@ + decimal(n as nat),
    decreases n,
{
    if n >= 10 {
        append_decimal(out, n / 10);
    }
    out.append(digit_text(n % 10));
    assert(decimal(n as nat) =~= if n < 10 {
        seq![digit_char(n as nat)]
    } else {
        decimal((n / 10) as nat) + seq![digit_char((n % 10) as nat)]
    });
}

/// The fixed upstream service: scheme, host and port of its base address.
pub struct UpstreamTarget {
    scheme: String,
    host: String,
    port: u16,
}

/// The origin text `scheme://host:port`.
pub open spec fn origin_text(scheme: Seq<char>, host: Seq<char>, port: u16) -> Seq<char> {
    scheme + "://"@ + host + ":"@ + decimal(port as nat)
}

/// The outbound address: the origin followed by the inbound path and, when
/// the inbound request had one, `?` and its query.
pub open spec fn upstream_url(
    origin: Seq<char>,
    path: Seq<char>,
    query: Option<Seq<char>>,
) -> Seq<char> {
    match query {
        Some(q) => origin + path + "?"@ + q,
        None => origin + path,
    }
}

impl UpstreamTarget {
    pub closed spec fn scheme_view(&self) -> Seq<char> {
        self.scheme@
    }

    pub closed spec fn host_view(&self) -> Seq<char> {
        self.host@
    }

    pub closed spec fn port_view(&self) -> u16 {
        self.port
    }

    pub open spec fn origin_view(&self) -> Seq<char> {
        origin_text(self.scheme_view(), self.host_view(), self.port_view())
    }

    pub fn new(scheme: &str, host: &str, port: u16) -> (r: UpstreamTarget)
        ensures
            r.scheme_view() == scheme@,
            r.host_view() == host@,
            r.port_view() == port,
    {
        UpstreamTarget { scheme: String::from_str(scheme), host: String::from_str(host), port }
    }

    pub fn port(&self) -> (r: u16)
        ensures
            r == self.port_view(),
    {
        self.port
    }

    /// `scheme://host:port`, the part of every outbound address that is fixed.
    pub fn origin(&self) -> (r: String)
        ensures
            r@ == self.origin_view(),
    {
        let mut out = self.scheme.clone();
        out.append("://");
        out.append(self.host.as_str());
        out.append(":");
        append_decimal(&mut out, self.port);
        out
    }

    /// The address that an inbound request for `path` with `query` is sent to.
    pub fn outbound_url(&self, path: &str, query: Option<&str>) -> (r: String)
        ensures
            r@ == upstream_url(
                self.origin_view(),
                path@,
                str_opt_view(query),
            ),
    {
        let mut out = self.origin();
        out.append(path);
        match query {
            Some(q) => {
                out.append("?");
                out.append(q);
            },
            None => {},
        }
        out
    }
}

/// The head of an inbound request that takes the relay route.
pub struct InboundHead {
    pub method: String,
    pub path: String,
    pub query: Option<String>,
    pub headers: Vec<Header>,
}

/// What is sent upstream in its place; the body is passed through as it comes.
pub struct OutboundRequest {
    pub method: String,
    pub url: String,
    pub headers: Vec<Header>,
}

impl UpstreamTarget {
    /// The request that goes upstream for `inbound`, received from a peer
    /// at address `peer` when that is known: same method, the inbound path
    /// and query under the upstream origin, and the request headers with
    /// `Host` dropped and the peer recorded in `X-Forwarded-For`.
    pub fn plan_outbound(&self, inbound: &InboundHead, peer: Option<&str>) -> (r: OutboundRequest)
        ensures
            r.method@ == inbound.method@,
            r.url@ == upstream_url(
                self.origin_view(),
                inbound.path@,
                string_opt_view(inbound.query),
            ),
            headers_view(r.headers@) == forwarded_request_headers(
                headers_view(inbound.headers@),
                str_opt_view(peer),
            ),
            forall|i: int|
                0 <= i < r.headers@.len() ==> !is_named(
                    #[trigger] headers_view(r.headers@)[i],
                    "host"@,
                ),
    {
        let query = match &inbound.query {
            Some(q) => Some(q.as_str()),
            None => None,
        };
        let url = self.outbound_url(inbound.path.as_str(), query);
        let headers = forward_request_headers(&inbound.headers, peer);
        proof {
            let kept = drop_named(headers_view(inbound.headers@), "host"@);
            let pred = |h: (Seq<char>, Seq<char>)| !is_named(h, "host"@);
            reveal_strlit("host");
            reveal_strlit("x-forwarded-for");
            assert forall|i: int| 0 <= i < headers@.len() implies !is_named(
                #[trigger] headers_view(headers@)[i],
                "host"@,
            ) by {
                if i < kept.len() {
                    assert(headers_view(headers@)[i] == kept[i]);
                    headers_view(inbound.headers@).lemma_filter_pred(pred, i);
                } else if let Some(p) = peer {
                    assert(headers_view(headers@) == kept.push(("x-forwarded-for"@, p@)));
                    assert(headers_view(headers@).len() == headers@.len());
                    assert(i == kept.len());
                    assert(headers_view(headers@)[i].0 == "x-forwarded-for"@);
                    assert("x-forwarded-for"@.len() == 15);
                    assert("host"@.len() == 4);
                }
            }
        }
        OutboundRequest { method: inbound.method.clone(), url, headers }
    }
}

} // verus!
