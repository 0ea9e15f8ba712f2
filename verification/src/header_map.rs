//! The headers of a message: at most one value per header.

use std::collections::HashMap;
use vstd::prelude::*;
use crate::header::{
    Header, HEADER_COUNT, header_code, header_from_code, header_name, lemma_header_code_roundtrip,
    lemma_header_from_code,
};

verus! {

broadcast use vstd::std_specs::hash::group_hash_axioms;

/// The header values of a request or response, keyed by header; each header
/// holds at most one value. The values are held in a `HashMap` keyed by the
/// header's code.
pub struct HeaderMap {
    map: HashMap<u8, String>,
}

impl View for HeaderMap {
    type V = Map<Header, Seq<char>>;

    closed spec fn view(&self) -> Map<Header, Seq<char>> {
        Map::new(
            |h: Header| self.map@.contains_key(header_code(h)),
            |h: Header| self.map@[header_code(h)]@,
        )
    }
}

/// The line `Name: value` (CRLF-terminated) for header code `code`, if
/// `m` holds a value for that header; nothing otherwise.
pub open spec fn header_line_text(m: Map<Header, Seq<char>>, code: nat) -> Seq<char> {
    if code < 256 {
        match header_from_code(code as u8) {
            Some(h) => if m.contains_key(h) {
                header_name(h) + ": "@ + m[h] + "\r\n"@
            } else {
                Seq::empty()
            },
            None => Seq::empty(),
        }
    } else {
        Seq::empty()
    }
}

/// The header lines for the codes below `n`, in code order.
pub open spec fn header_lines(m: Map<Header, Seq<char>>, n: nat) -> Seq<char>
    decreases n,
{
    if n == 0 {
        Seq::empty()
    } else {
        header_lines(m, (n - 1) as nat) + header_line_text(m, (n - 1) as nat)
    }
}

/// All header lines of `m`, in the declaration order of [`Header`].
pub open spec fn headers_text(m: Map<Header, Seq<char>>) -> Seq<char> {
    header_lines(m, HEADER_COUNT as nat)
}

impl HeaderMap {
    /// A map without headers.
    pub fn new() -> (r: HeaderMap)
        ensures
            r@ == Map::<Header, Seq<char>>::empty(),
    {
        let r = HeaderMap { map: HashMap::new() };
        assert(r@ =~= Map::<Header, Seq<char>>::empty());
        r
    }

    /// Whether the map holds a value for `h`.
    pub fn contains_key(&self, h: Header) -> (r: bool)
        ensures
            r == self@.contains_key(h),
    {
        let code = h.code();
        self.map.contains_key(&code)
    }

    /// The value held for `h`, if any.
    pub fn get(&self, h: Header) -> (r: Option<&String>)
        ensures
            r is Some <==> self@.contains_key(h),
            r matches Some(v) ==> v@ == self@[h],
    {
        let code = h.code();
        self.map.get(&code)
    }

    /// Sets the value of `h` to `value`, replacing any value it held.
    pub fn insert(&mut self, h: Header, value: String)
        ensures
            final(self)@ == old(self)@.insert(h, value@),
    {
        let code = h.code();
        self.map.insert(code, value);
        proof {
            lemma_header_code_roundtrip(h);
            assert forall|k: Header| header_code(k) == header_code(h) implies k == h by {
                lemma_header_code_roundtrip(k);
            }
        }
        assert(self@ =~= old(self)@.insert(h, value@));
    }

    /// Appends the lines `Name: value` (each ending in CRLF) of the headers
    /// this map holds, in the declaration order of [`Header`].
    pub fn write_lines(&self, out: &mut String)
        ensures
            final(out)@ == old(out)@ + headers_text(self@),
    {
        let mut code: u8 = 0;
        while code < HEADER_COUNT
            invariant
                code <= HEADER_COUNT,
                out@ == old(out)@ + header_lines(self@, code as nat),
            decreases HEADER_COUNT - code,
        {
            let ghost before = out@;
            match Header::from_code(code) {
                Some(h) => {
                    match self.get(h) {
                        Some(v) => {
                            out.append(h.name());
                            out.append(": ");
                            out.append(v.as_str());
                            out.append("\r\n");
                        },
                        None => {},
                    }
                },
                None => {},
            }
            assert(out@ =~= before + header_line_text(self@, code as nat));
            code = code + 1;
        }
    }
}

proof fn lemma_single_header_lines(h: Header, v: Seq<char>, n: nat)
    requires
        n <= HEADER_COUNT,
    ensures
        header_lines(Map::empty().insert(h, v), n) == if n > header_code(h) {
            header_name(h) + ": "@ + v + "\r\n"@
        } else {
            Seq::<char>::empty()
        },
    decreases n,
{
    lemma_header_code_roundtrip(h);
    if n > 0 {
        let k = (n - 1) as nat;
        lemma_single_header_lines(h, v, k);
        lemma_header_from_code(k as u8);
        if k == header_code(h) {
            assert(header_lines(Map::empty().insert(h, v), n) =~= header_name(h) + ": "@ + v
                + "\r\n"@);
        } else {
            assert(header_line_text(Map::empty().insert(h, v), k) =~= Seq::<char>::empty());
            assert(header_lines(Map::empty().insert(h, v), n) =~= header_lines(
                Map::empty().insert(h, v),
                k,
            ));
        }
    }
}

/// A single header is written as its name, `: `, its value and a line end.
pub proof fn lemma_single_header_text(h: Header, v: Seq<char>)
    ensures
        headers_text(Map::empty().insert(h, v)) == header_name(h) + ": "@ + v + "\r\n"@,
{
    lemma_header_code_roundtrip(h);
    lemma_single_header_lines(h, v, HEADER_COUNT as nat);
}

/// No headers are written as no text.
pub proof fn lemma_no_header_text()
    ensures
        headers_text(Map::<Header, Seq<char>>::empty()).len() == 0,
{
    lemma_no_header_lines(HEADER_COUNT as nat);
}

proof fn lemma_no_header_lines(n: nat)
    ensures
        header_lines(Map::<Header, Seq<char>>::empty(), n).len() == 0,
    decreases n,
{
    if n > 0 {
        lemma_no_header_lines((n - 1) as nat);
    }
}

} // verus!
