//! What the library knows of the connection a request came in on, and the
//! rewriting of the `Via` header that a response sends back.

use vstd::prelude::*;
use crate::error::SipError;
use crate::number::{decimal, is_ascii_digit, lemma_decimal_value, push_decimal};
use crate::text::{
    chars_of, find_char, find_in_range, lemma_find_char, lemma_find_char_bounds, push_range,
    range_equals,
};

verus! {

/// The addresses of the connection a request arrived on, as the response
/// needs them. The local address is address text ([`is_address_text`]), so
/// that it can be written into a `Via` value.
#[derive(Debug, PartialEq, Eq)]
pub struct ConnectionInfo {
    /// The local IP address, written as `IpAddr` displays it.
    local_ip: String,
    /// The remote port.
    remote_port: u16,
}

/// The addresses of a connection, as characters.
pub struct ConnectionView {
    pub local_ip: Seq<char>,
    pub remote_port: u16,
}

impl View for ConnectionInfo {
    type V = ConnectionView;

    closed spec fn view(&self) -> ConnectionView {
        ConnectionView { local_ip: self.local_ip@, remote_port: self.remote_port }
    }
}

/// Whether `s` holds no line feed (the `.` of a regular expression matches
/// every other character).
pub open spec fn no_line_feed(s: Seq<char>) -> bool {
    forall|i: int| 0 <= i < s.len() ==> s[i] != '\n'
}

/// Whether a `Via` value has the form `preamble;parameters`: a non-empty
/// first part without `;`, then `;`, then a rest without a line feed.
pub open spec fn via_well_formed(s: Seq<char>) -> bool {
    let i = find_char(s, ';');
    &&& 0 < i < s.len()
    &&& no_line_feed(s.skip(i + 1))
}

/// One `;`-separated parameter of a `Via` value, rewritten: `received`
/// takes the local IP address, `rport` the remote port, and every other
/// parameter stays as it is. The name of a parameter is its text before the
/// first `=`.
pub open spec fn via_param(part: Seq<char>, ip: Seq<char>, port: u16) -> Seq<char> {
    let key = part.take(find_char(part, '='));
    if key == "received"@ {
        "received="@ + ip
    } else if key == "rport"@ {
        "rport="@ + decimal(port as nat)
    } else {
        part
    }
}

/// The parameters of a `Via` value, each rewritten by [`via_param`] and
/// preceded by `;`.
pub open spec fn via_params(p: Seq<char>, ip: Seq<char>, port: u16) -> Seq<char>
    decreases p.len(),
{
    let j = find_char(p, ';');
    if j < p.len() {
        proof {
            lemma_find_char_bounds(p, ';');
        }
        seq![';'] + via_param(p.take(j), ip, port) + via_params(p.skip(j + 1), ip, port)
    } else {
        seq![';'] + via_param(p, ip, port)
    }
}

/// The `Via` value of a response for the `Via` value `s` of a request.
pub open spec fn via_response(s: Seq<char>, ip: Seq<char>, port: u16) -> Seq<char> {
    let i = find_char(s, ';');
    s.take(i) + via_params(s.skip(i + 1), ip, port)
}

/// Whether a `Via` parameter is named other than `received` and `rport`.
pub open spec fn param_kept(part: Seq<char>) -> bool {
    let key = part.take(find_char(part, '='));
    key != "received"@ && key != "rport"@
}

/// Whether no `;`-separated parameter of `p` is named `received` or
/// `rport`.
pub open spec fn params_kept(p: Seq<char>) -> bool
    decreases p.len(),
{
    let j = find_char(p, ';');
    if j < p.len() {
        proof {
            lemma_find_char_bounds(p, ';');
        }
        param_kept(p.take(j)) && params_kept(p.skip(j + 1))
    } else {
        param_kept(p)
    }
}

proof fn lemma_params_kept(p: Seq<char>, ip: Seq<char>, port: u16)
    requires
        params_kept(p),
    ensures
        via_params(p, ip, port) == seq![';'] + p,
    decreases p.len(),
{
    lemma_find_char_bounds(p, ';');
    let j = find_char(p, ';');
    if j < p.len() {
        lemma_params_kept(p.skip(j + 1), ip, port);
        assert(p =~= p.take(j) + seq![';'] + p.skip(j + 1));
    }
}

/// A well-formed `Via` value none of whose parameters is named `received`
/// or `rport` is sent back unchanged.
pub proof fn lemma_via_without_address_params_unchanged(s: Seq<char>, ip: Seq<char>, port: u16)
    requires
        via_well_formed(s),
        params_kept(s.skip(find_char(s, ';') + 1)),
    ensures
        via_response(s, ip, port) == s,
{
    lemma_find_char_bounds(s, ';');
    let i = find_char(s, ';');
    lemma_params_kept(s.skip(i + 1), ip, port);
    assert(s =~= s.take(i) + seq![';'] + s.skip(i + 1));
}

/// Whether `s` holds no `c`.
pub open spec fn lacks(s: Seq<char>, c: char) -> bool {
    forall|i: int| 0 <= i < s.len() ==> s[i] != c
}

proof fn lemma_lacks_find(s: Seq<char>, c: char)
    requires
        lacks(s, c),
    ensures
        find_char(s, c) == s.len(),
{
    lemma_find_char(s, c, s.len() as int);
}

proof fn lemma_find_after(a: Seq<char>, b: Seq<char>, c: char)
    requires
        lacks(a, c),
        b.len() > 0,
        b[0] == c,
    ensures
        find_char(a + b, c) == a.len(),
{
    let s = a + b;
    assert forall|k: int| 0 <= k < a.len() implies s[k] != c by {
        assert(s[k] == a[k]);
    }
    lemma_find_char(s, c, a.len() as int);
}

/// A rewritten parameter holds no `;`, and rewriting it again changes
/// nothing, when neither the parameter nor the IP address holds a `;`.
proof fn lemma_via_param_stable(part: Seq<char>, ip: Seq<char>, port: u16)
    requires
        lacks(part, ';'),
        lacks(ip, ';'),
    ensures
        lacks(via_param(part, ip, port), ';'),
        via_param(via_param(part, ip, port), ip, port) == via_param(part, ip, port),
{
    reveal_strlit("received=");
    reveal_strlit("received");
    reveal_strlit("rport=");
    reveal_strlit("rport");
    let key = part.take(find_char(part, '='));
    if key == "received"@ {
        let out = "received="@ + ip;
        assert forall|k: int| 0 <= k < 8 implies out[k] != '=' by {
            assert(out[k] == "received"@[k]);
        }
        assert(out[8] == '=');
        lemma_find_char(out, '=', 8);
        assert(out.take(8) =~= "received"@);
        assert forall|k: int| 0 <= k < out.len() implies out[k] != ';' by {
            if k >= 9 {
                assert(out[k] == ip[k - 9]);
            }
        }
    } else if key == "rport"@ {
        let d = decimal(port as nat);
        lemma_decimal_value(port as nat);
        let out = "rport="@ + d;
        assert forall|k: int| 0 <= k < 5 implies out[k] != '=' by {
            assert(out[k] == "rport"@[k]);
        }
        assert(out[5] == '=');
        lemma_find_char(out, '=', 5);
        assert(out.take(5) =~= "rport"@);
        assert forall|k: int| 0 <= k < out.len() implies out[k] != ';' by {
            if k >= 6 {
                assert(out[k] == d[k - 6]);
                assert(is_ascii_digit(d[k - 6]));
            }
        }
    }
}

proof fn lemma_via_params_stable(p: Seq<char>, ip: Seq<char>, port: u16)
    requires
        lacks(ip, ';'),
    ensures
        via_params(p, ip, port).len() > 0,
        via_params(p, ip, port)[0] == ';',
        via_params(via_params(p, ip, port).drop_first(), ip, port) == via_params(p, ip, port),
    decreases p.len(),
{
    lemma_find_char_bounds(p, ';');
    let j = find_char(p, ';');
    let out = via_params(p, ip, port);
    if j < p.len() {
        let part = p.take(j);
        assert(lacks(part, ';'));
        lemma_via_param_stable(part, ip, port);
        let p1 = via_param(part, ip, port);
        let rest = via_params(p.skip(j + 1), ip, port);
        lemma_via_params_stable(p.skip(j + 1), ip, port);
        let q = out.drop_first();
        assert(q =~= p1 + rest);
        lemma_find_after(p1, rest, ';');
        assert(q.take(p1.len() as int) =~= p1);
        assert(q.skip(p1.len() as int + 1) =~= rest.drop_first());
    } else {
        assert(lacks(p, ';'));
        lemma_via_param_stable(p, ip, port);
        let p1 = via_param(p, ip, port);
        assert(out.drop_first() =~= p1);
        lemma_lacks_find(p1, ';');
    }
}

proof fn lemma_via_param_no_line_feed(part: Seq<char>, ip: Seq<char>, port: u16)
    requires
        lacks(part, '\n'),
        lacks(ip, '\n'),
    ensures
        lacks(via_param(part, ip, port), '\n'),
{
    reveal_strlit("received=");
    reveal_strlit("rport=");
    let key = part.take(find_char(part, '='));
    if key == "received"@ {
        let out = "received="@ + ip;
        assert forall|k: int| 0 <= k < out.len() implies out[k] != '\n' by {
            if k >= 9 {
                assert(out[k] == ip[k - 9]);
            }
        }
    } else if key == "rport"@ {
        let d = decimal(port as nat);
        lemma_decimal_value(port as nat);
        let out = "rport="@ + d;
        assert forall|k: int| 0 <= k < out.len() implies out[k] != '\n' by {
            if k >= 6 {
                assert(out[k] == d[k - 6]);
                assert(is_ascii_digit(d[k - 6]));
            }
        }
    }
}

proof fn lemma_via_params_no_line_feed(p: Seq<char>, ip: Seq<char>, port: u16)
    requires
        lacks(p, '\n'),
        lacks(ip, '\n'),
    ensures
        lacks(via_params(p, ip, port), '\n'),
    decreases p.len(),
{
    lemma_find_char_bounds(p, ';');
    let j = find_char(p, ';');
    let out = via_params(p, ip, port);
    if j < p.len() {
        let part = p.take(j);
        lemma_via_param_no_line_feed(part, ip, port);
        lemma_via_params_no_line_feed(p.skip(j + 1), ip, port);
        let a = via_param(part, ip, port);
        let b = via_params(p.skip(j + 1), ip, port);
        assert forall|k: int| 0 <= k < out.len() implies out[k] != '\n' by {
            if k >= 1 && k < 1 + a.len() {
                assert(out[k] == a[k - 1]);
            } else if k >= 1 + a.len() {
                assert(out[k] == b[k - 1 - a.len()]);
            }
        }
    } else {
        lemma_via_param_no_line_feed(p, ip, port);
        let a = via_param(p, ip, port);
        assert forall|k: int| 0 <= k < out.len() implies out[k] != '\n' by {
            if k >= 1 {
                assert(out[k] == a[k - 1]);
            }
        }
    }
}

/// Whether `ip` can be written into a `Via` parameter without changing how
/// the value splits: it holds no `;` and no line feed, as the text of an IP
/// address never does.
pub open spec fn is_address_text(ip: Seq<char>) -> bool {
    lacks(ip, ';') && lacks(ip, '\n')
}

/// The `Via` value sent back for a well-formed `Via` value is itself well
/// formed, and rewriting it again changes nothing, when the local address
/// is written as address text ([`is_address_text`]).
pub proof fn lemma_via_response_stable(s: Seq<char>, ip: Seq<char>, port: u16)
    requires
        via_well_formed(s),
        is_address_text(ip),
    ensures
        via_well_formed(via_response(s, ip, port)),
        via_response(via_response(s, ip, port), ip, port) == via_response(s, ip, port),
{
    lemma_find_char_bounds(s, ';');
    let i = find_char(s, ';');
    let pre = s.take(i);
    assert(lacks(pre, ';'));
    let params = via_params(s.skip(i + 1), ip, port);
    lemma_via_params_stable(s.skip(i + 1), ip, port);
    let out = via_response(s, ip, port);
    assert(out =~= pre + params);
    lemma_find_after(pre, params, ';');
    assert(out.take(i) =~= pre);
    assert(out.skip(i + 1) =~= params.drop_first());
    assert(lacks(s.skip(i + 1), '\n'));
    lemma_via_params_no_line_feed(s.skip(i + 1), ip, port);
    assert forall|k: int| 0 <= k < out.skip(i + 1).len() implies #[trigger] out.skip(i + 1)[k]
        != '\n' by {
        assert(out.skip(i + 1)[k] == params[k + 1]);
    }
}

proof fn lemma_named_param(name: Seq<char>, x: Seq<char>)
    requires
        lacks(name, '=') && lacks(name, ';'),
        x.len() == 0 || x[0] == '=',
        lacks(x, ';'),
    ensures
        (name + x).take(find_char(name + x, '=')) == name,
        find_char(name + x, ';') == (name + x).len(),
{
    let p = name + x;
    assert forall|k: int| 0 <= k < name.len() implies p[k] != '=' by {
        assert(p[k] == name[k]);
    }
    if x.len() == 0 {
        assert(p =~= name);
        lemma_lacks_find(name, '=');
    } else {
        lemma_find_char(p, '=', name.len() as int);
    }
    assert(p.take(find_char(p, '=')) =~= name);
    assert(lacks(p, ';')) by {
        assert forall|k: int| 0 <= k < p.len() implies p[k] != ';' by {
            if k < name.len() {
                assert(p[k] == name[k]);
            } else {
                assert(p[k] == x[k - name.len()]);
            }
        }
    }
    lemma_lacks_find(p, ';');
}

/// A `Via` value whose one parameter is `received` (bare or with a value)
/// is sent back with that parameter set to the local address, and one whose
/// one parameter is `rport` with it set to the remote port in decimal; the
/// part before the `;` is kept.
pub proof fn lemma_via_address_params(pre: Seq<char>, x: Seq<char>, ip: Seq<char>, port: u16)
    requires
        pre.len() > 0,
        lacks(pre, ';'),
        x.len() == 0 || x[0] == '=',
        lacks(x, ';'),
    ensures
        via_response(pre + ";received"@ + x, ip, port) == pre + ";received="@ + ip,
        via_response(pre + ";rport"@ + x, ip, port) == pre + ";rport="@ + decimal(port as nat),
{
    reveal_strlit(";received");
    reveal_strlit("received");
    reveal_strlit(";received=");
    reveal_strlit("received=");
    reveal_strlit(";rport");
    reveal_strlit("rport");
    reveal_strlit(";rport=");
    reveal_strlit("rport=");
    let names = seq!["received"@, "rport"@];
    assert forall|n: int| 0 <= n < 2 implies {
        let name = #[trigger] names[n];
        let s = pre + seq![';'] + name + x;
        &&& via_response(s, ip, port) == pre + seq![';'] + via_param(name + x, ip, port)
    } by {
        let name = names[n];
        assert(lacks(name, '=') && lacks(name, ';'));
        let part = name + x;
        let s = pre + seq![';'] + name + x;
        lemma_named_param(name, x);
        lemma_find_after(pre, seq![';'] + part, ';');
        assert(s =~= pre + (seq![';'] + part));
        assert(s.take(pre.len() as int) =~= pre);
        assert(s.skip(pre.len() as int + 1) =~= part);
    }
    assert(names[0] == "received"@);
    assert(names[1] == "rport"@);
    assert(pre + ";received"@ + x =~= pre + seq![';'] + "received"@ + x);
    assert(pre + ";rport"@ + x =~= pre + seq![';'] + "rport"@ + x);
    lemma_named_param("received"@, x);
    lemma_named_param("rport"@, x);
    assert(pre + seq![';'] + ("received="@ + ip) =~= pre + ";received="@ + ip);
    assert(pre + seq![';'] + ("rport="@ + decimal(port as nat)) =~= pre + ";rport="@ + decimal(
        port as nat,
    ));
}

impl ConnectionInfo {
    #[verifier::type_invariant]
    spec fn address_is_text(self) -> bool {
        is_address_text(self.local_ip@)
    }

    /// The addresses of a connection with local address `local_ip` and
    /// remote port `remote_port`; there is none when `local_ip` is not
    /// address text ([`is_address_text`]).
    pub fn new(local_ip: String, remote_port: u16) -> (r: Option<ConnectionInfo>)
        ensures
            r is Some <==> is_address_text(local_ip@),
            r matches Some(c) ==> c@ == (ConnectionView { local_ip: local_ip@, remote_port }),
    {
        let v = chars_of(local_ip.as_str());
        let n = v.len();
        let semicolon = find_in_range(&v, 0, n, ';');
        let line_feed = find_in_range(&v, 0, n, '\n');
        if semicolon < n || line_feed < n {
            None
        } else {
            Some(ConnectionInfo { local_ip, remote_port })
        }
    }

    /// The local IP address.
    pub fn local_ip(&self) -> (r: &str)
        ensures
            r@ == self@.local_ip,
    {
        self.local_ip.as_str()
    }

    /// The remote port.
    pub fn remote_port(&self) -> (r: u16)
        ensures
            r == self@.remote_port,
    {
        self.remote_port
    }

    /// The `Via` value to send back for the `Via` value of a request: the
    /// first part is kept, and among the `;`-separated parameters `received`
    /// is set to the local IP address and `rport` to the remote port. A value
    /// without a `;` after a non-empty first part, or with a line feed after
    /// that `;`, is refused. A value sent back is itself well formed, and
    /// rewriting it again gives it back unchanged.
    pub fn via_header_response(&self, via_request: String) -> (r: Result<String, SipError>)
        ensures
            r is Ok <==> via_well_formed(via_request@),
            r matches Ok(v) ==> v@ == via_response(via_request@, self@.local_ip, self@.remote_port),
            r matches Ok(v) ==> via_well_formed(v@),
            r matches Ok(v) ==> via_response(v@, self@.local_ip, self@.remote_port) == v@,
            r matches Err(e) ==> e == SipError::BadViaHeader,
    {
        proof {
            use_type_invariant(self);
        }
        let v = chars_of(via_request.as_str());
        let len = v.len();
        let i = find_in_range(&v, 0, len, ';');
        assert(v@.subrange(0, len as int) =~= v@);
        if i == 0 || i == len {
            return Err(SipError::BadViaHeader);
        }
        let nl = find_in_range(&v, i + 1, len, '\n');
        if nl < len {
            assert(v@.skip(i + 1)[nl - i - 1] == '\n');
            return Err(SipError::BadViaHeader);
        }
        assert(no_line_feed(v@.skip(i + 1))) by {
            assert forall|k: int| 0 <= k < v@.skip(i + 1).len() implies #[trigger] v@.skip(
                i + 1,
            )[k] != '\n' by {
                assert(v@.skip(i + 1)[k] == v@[i + 1 + k]);
            }
        }
        let mut out = String::new();
        push_range(&mut out, &v, 0, i);
        let ghost ip = self.local_ip@;
        let ghost port = self.remote_port;
        let ghost goal = via_response(v@, ip, port);
        assert(v@.take(i as int) =~= v@.subrange(0, i as int));
        let mut start = i + 1;
        assert(v@.subrange(start as int, len as int) =~= v@.skip(i + 1));
        loop
            invariant
                i + 1 <= start <= len,
                len == v@.len(),
                v@ == via_request@,
                via_well_formed(v@),
                ip == self.local_ip@,
                port == self.remote_port,
                is_address_text(ip),
                goal == via_response(v@, ip, port),
                out@ + via_params(v@.subrange(start as int, len as int), ip, port) == goal,
            decreases len - start,
        {
            let ghost rest = v@.subrange(start as int, len as int);
            let j = find_in_range(&v, start, len, ';');
            let ghost part = v@.subrange(start as int, j as int);
            assert(rest.take(j - start) =~= part);
            let ghost before = out@;
            out.append(";");
            proof {
                reveal_strlit(";");
            }
            let eq = find_in_range(&v, start, j, '=');
            assert(part.take(eq - start) =~= v@.subrange(start as int, eq as int));
            if range_equals(&v, start, eq, "received") {
                out.append("received=");
                out.append(self.local_ip.as_str());
            } else if range_equals(&v, start, eq, "rport") {
                out.append("rport=");
                push_decimal(&mut out, self.remote_port as u64);
            } else {
                push_range(&mut out, &v, start, j);
            }
            assert(out@ =~= before + seq![';'] + via_param(part, ip, port));
            if j == len {
                assert(rest =~= part);
                assert(via_params(rest, ip, port) == seq![';'] + via_param(part, ip, port));
                proof {
                    lemma_via_response_stable(v@, ip, port);
                }
                return Ok(out);
            }
            assert(rest.skip(j - start + 1) =~= v@.subrange(j + 1, len as int));
            start = j + 1;
        }
    }
}

} // verus!
