//! The two line forms of a SIP request: the request line
//! `METHOD address SIP/2.0` and the header line `Name: value`.
//!
//! Each is the language of a regular expression: the request line
//! `^([A-Z]+) (.+) SIP.2.0$`, the header line `^([\w\-]+):\s+(.+)$`
//! (`.` is any character but a line feed, `\w` a Unicode word character and
//! `\s` Unicode white space). The functions here decide them directly.

use vstd::prelude::*;
use crate::connection::no_line_feed;
use crate::header::{Header, header_name, lemma_header_name_letters};
use crate::text::{
    chars_of, find_in_range, is_white_space, lemma_trim_end_crlf, string_of, trim_end_seq, white_space,
};
use crate::unicode::{is_word_character, word_character};

verus! {

/// An ASCII capital letter, `[A-Z]`.
pub open spec fn is_ascii_upper(c: char) -> bool {
    'A' <= c <= 'Z'
}

/// A character of a header name: `[\w\-]`.
pub open spec fn is_name_char(c: char) -> bool {
    word_character(c) || c == '-'
}

/// How many characters at the start of `s` are capital letters.
pub open spec fn upper_prefix_len(s: Seq<char>) -> int
    decreases s.len(),
{
    if s.len() > 0 && is_ascii_upper(s[0]) {
        1 + upper_prefix_len(s.drop_first())
    } else {
        0
    }
}

/// How many characters at the start of `s` are header-name characters.
pub open spec fn name_prefix_len(s: Seq<char>) -> int
    decreases s.len(),
{
    if s.len() > 0 && is_name_char(s[0]) {
        1 + name_prefix_len(s.drop_first())
    } else {
        0
    }
}

/// How many characters at the start of `s` are white space.
pub open spec fn white_prefix_len(s: Seq<char>) -> int
    decreases s.len(),
{
    if s.len() > 0 && is_white_space(s[0]) {
        1 + white_prefix_len(s.drop_first())
    } else {
        0
    }
}

/// The method and the address of a request line, when `s` is one: capital
/// letters, a space, a non-empty address without line feed, then ` SIP`,
/// any character but a line feed, `2`, any character but a line feed, and
/// `0`, ending `s`.
pub open spec fn request_line_parts(s: Seq<char>) -> Option<(Seq<char>, Seq<char>)> {
    let m = upper_prefix_len(s);
    let n = s.len() as int;
    if m >= 1 && n >= m + 10 && s[m] == ' ' && no_line_feed(s.subrange(m + 1, n - 8))
        && s.subrange(n - 8, n - 4) == " SIP"@ && s[n - 4] != '\n' && s[n - 3] == '2' && s[n - 2]
        != '\n' && s[n - 1] == '0' {
        Some((s.take(m), s.subrange(m + 1, n - 8)))
    } else {
        None
    }
}

/// The name and the value of a header line, when `s` is one: name
/// characters, `:`, white space, and a non-empty value without line feed
/// ending `s`. The white space run is taken as long as it can be while a
/// value remains.
pub open spec fn header_line_parts(s: Seq<char>) -> Option<(Seq<char>, Seq<char>)> {
    let k = name_prefix_len(s);
    if k >= 1 && k < s.len() && s[k] == ':' {
        let r = s.skip(k + 1);
        let w = white_prefix_len(r);
        if w >= 1 && w < r.len() && no_line_feed(r.skip(w)) {
            Some((s.take(k), r.skip(w)))
        } else if w >= 2 && w == r.len() && r.last() != '\n' {
            Some((s.take(k), r.skip(w - 1)))
        } else {
            None
        }
    } else {
        None
    }
}

proof fn lemma_upper_prefix(s: Seq<char>, i: int)
    requires
        0 <= i <= s.len(),
        forall|k: int| 0 <= k < i ==> is_ascii_upper(#[trigger] s[k]),
        i == s.len() || !is_ascii_upper(s[i]),
    ensures
        upper_prefix_len(s) == i,
    decreases i,
{
    if i > 0 {
        assert forall|k: int| 0 <= k < i - 1 implies is_ascii_upper(#[trigger] s.drop_first()[k]) by {
            assert(s.drop_first()[k] == s[k + 1]);
        }
        lemma_upper_prefix(s.drop_first(), i - 1);
    }
}

proof fn lemma_name_prefix(s: Seq<char>, i: int)
    requires
        0 <= i <= s.len(),
        forall|k: int| 0 <= k < i ==> is_name_char(#[trigger] s[k]),
        i == s.len() || !is_name_char(s[i]),
    ensures
        name_prefix_len(s) == i,
    decreases i,
{
    if i > 0 {
        assert forall|k: int| 0 <= k < i - 1 implies is_name_char(#[trigger] s.drop_first()[k]) by {
            assert(s.drop_first()[k] == s[k + 1]);
        }
        lemma_name_prefix(s.drop_first(), i - 1);
    }
}

proof fn lemma_white_prefix(s: Seq<char>, i: int)
    requires
        0 <= i <= s.len(),
        forall|k: int| 0 <= k < i ==> is_white_space(#[trigger] s[k]),
        i == s.len() || !is_white_space(s[i]),
    ensures
        white_prefix_len(s) == i,
    decreases i,
{
    if i > 0 {
        assert forall|k: int| 0 <= k < i - 1 implies is_white_space(#[trigger] s.drop_first()[k]) by {
            assert(s.drop_first()[k] == s[k + 1]);
        }
        lemma_white_prefix(s.drop_first(), i - 1);
    }
}

/// The method and the address of the request line `line`, as the
/// expression `^([A-Z]+) (.+) SIP.2.0$` captures them.
pub fn parse_request_line(line: &str) -> (r: Option<(String, String)>)
    ensures
        r is Some <==> request_line_parts(line@) is Some,
        r matches Some((m, a)) ==> (m@, a@) == request_line_parts(line@).unwrap(),
{
    let v = chars_of(line);
    let n = v.len();
    let mut m: usize = 0;
    while m < n && 'A' <= v[m] && v[m] <= 'Z'
        invariant
            m <= n == v@.len(),
            forall|k: int| 0 <= k < m ==> is_ascii_upper(#[trigger] v@[k]),
        decreases n - m,
    {
        m = m + 1;
    }
    proof {
        lemma_upper_prefix(v@, m as int);
    }
    if m < 1 || n - m < 10 || v[m] != ' ' {
        return None;
    }
    let nl = find_in_range(&v, m + 1, n - 8, '\n');
    if nl < n - 8 {
        assert(v@.subrange(m + 1, n - 8)[nl - m - 1] == '\n');
        return None;
    }
    if !(v[n - 8] == ' ' && v[n - 7] == 'S' && v[n - 6] == 'I' && v[n - 5] == 'P' && v[n - 4]
        != '\n' && v[n - 3] == '2' && v[n - 2] != '\n' && v[n - 1] == '0') {
        proof {
            reveal_strlit(" SIP");
            if v@.subrange(n - 8, n - 4) == " SIP"@ {
                assert(v@[n - 8] == v@.subrange(n - 8, n - 4)[0]);
                assert(v@[n - 7] == v@.subrange(n - 8, n - 4)[1]);
                assert(v@[n - 6] == v@.subrange(n - 8, n - 4)[2]);
                assert(v@[n - 5] == v@.subrange(n - 8, n - 4)[3]);
            }
        }
        return None;
    }
    proof {
        reveal_strlit(" SIP");
        assert(v@.subrange(n - 8, n - 4) =~= " SIP"@);
        assert(no_line_feed(v@.subrange(m + 1, n - 8)));
    }
    let method = string_of(&v, 0, m);
    let address = string_of(&v, m + 1, n - 8);
    assert(v@.subrange(0, m as int) =~= v@.take(m as int));
    Some((method, address))
}

/// The name and the value of the header line `line`, as the expression
/// `^([\w\-]+):\s+(.+)$` captures them.
pub fn parse_header_line(line: &str) -> (r: Option<(String, String)>)
    ensures
        r is Some <==> header_line_parts(line@) is Some,
        r matches Some((k, v)) ==> (k@, v@) == header_line_parts(line@).unwrap(),
{
    let v = chars_of(line);
    let n = v.len();
    let mut k: usize = 0;
    while k < n && (is_word_character(v[k]) || v[k] == '-')
        invariant
            k <= n == v@.len(),
            forall|j: int| 0 <= j < k ==> is_name_char(#[trigger] v@[j]),
        decreases n - k,
    {
        k = k + 1;
    }
    proof {
        lemma_name_prefix(v@, k as int);
    }
    if k < 1 || k >= n || v[k] != ':' {
        return None;
    }
    let ghost r = v@.skip(k + 1);
    let start = k + 1;
    let mut e = start;
    while e < n && white_space(v[e])
        invariant
            start <= e <= n == v@.len(),
            forall|j: int| start <= j < e ==> is_white_space(#[trigger] v@[j]),
        decreases n - e,
    {
        e = e + 1;
    }
    proof {
        assert forall|j: int| 0 <= j < e - start implies is_white_space(#[trigger] r[j]) by {
            assert(r[j] == v@[start + j]);
        }
        lemma_white_prefix(r, e - start);
    }
    let name = string_of(&v, 0, k);
    assert(v@.subrange(0, k as int) =~= v@.take(k as int));
    if e > start && e < n {
        let nl = find_in_range(&v, e, n, '\n');
        if nl < n {
            assert(r.skip(e - start)[nl - e] == '\n');
            return None;
        }
        assert(no_line_feed(r.skip(e - start))) by {
            assert forall|j: int| 0 <= j < r.skip(e - start).len() implies #[trigger] r.skip(
                e - start,
            )[j] != '\n' by {
                assert(r.skip(e - start)[j] == v@[e + j]);
            }
        }
        let value = string_of(&v, e, n);
        assert(v@.subrange(e as int, n as int) =~= r.skip(e - start));
        Some((name, value))
    } else if e - start >= 2 && e == n && v[n - 1] != '\n' {
        let value = string_of(&v, n - 1, n);
        assert(v@.subrange(n - 1, n as int) =~= r.skip(e - start - 1));
        Some((name, value))
    } else {
        None
    }
}

/// A request line written as `METHOD address SIP/2.0` reads back as that
/// method and address, for any method of capital letters and any non-empty
/// address without a line feed.
pub proof fn lemma_request_line_reads_back(m: Seq<char>, a: Seq<char>)
    requires
        m.len() >= 1,
        forall|i: int| 0 <= i < m.len() ==> is_ascii_upper(#[trigger] m[i]),
        a.len() >= 1,
        no_line_feed(a),
    ensures
        request_line_parts(m + " "@ + a + " SIP/2.0"@) == Some((m, a)),
{
    reveal_strlit(" ");
    reveal_strlit(" SIP/2.0");
    reveal_strlit(" SIP");
    let s = m + " "@ + a + " SIP/2.0"@;
    let k = m.len() as int;
    let n = s.len() as int;
    assert forall|i: int| 0 <= i < k implies is_ascii_upper(#[trigger] s[i]) by {
        assert(s[i] == m[i]);
    }
    assert(s[k] == ' ');
    lemma_upper_prefix(s, k);
    assert(s.subrange(k + 1, n - 8) =~= a);
    assert(s.subrange(n - 8, n - 4) =~= " SIP"@);
    assert(s[n - 3] == '2' && s[n - 2] == '.' && s[n - 1] == '0');
    assert(s.take(k) =~= m);
}

/// A header line written as `Name: value` reads back as that name and
/// value, for any non-empty name of header-name characters and any non-empty
/// value that starts with other than white space and holds no line feed.
pub proof fn lemma_header_line_reads_back(k: Seq<char>, v: Seq<char>)
    requires
        k.len() >= 1,
        forall|i: int| 0 <= i < k.len() ==> is_name_char(#[trigger] k[i]),
        v.len() >= 1,
        !is_white_space(v[0]),
        no_line_feed(v),
    ensures
        header_line_parts(k + ": "@ + v) == Some((k, v)),
{
    reveal_strlit(": ");
    let s = k + ": "@ + v;
    let n = k.len() as int;
    assert forall|i: int| 0 <= i < n implies is_name_char(#[trigger] s[i]) by {
        assert(s[i] == k[i]);
    }
    assert(s[n] == ':');
    assert(!is_name_char(':'));
    lemma_name_prefix(s, n);
    let r = s.skip(n + 1);
    assert(r[0] == ' ');
    assert(r[1] == v[0]);
    assert(is_white_space(r[0]));
    assert forall|i: int| 0 <= i < 1 implies is_white_space(#[trigger] r[i]) by {}
    lemma_white_prefix(r, 1);
    assert(r.skip(1) =~= v);
    assert(s.take(n) =~= k);
}

/// The line `Name: value` that rendering writes for a header reads back,
/// once its line end is trimmed, as the header's name and the value, when
/// the value is non-empty, starts and ends with other than white space, and
/// holds no line feed.
pub proof fn lemma_rendered_header_line_reads_back(h: Header, v: Seq<char>)
    requires
        v.len() >= 1,
        !is_white_space(v[0]),
        !is_white_space(v.last()),
        no_line_feed(v),
    ensures
        header_line_parts(trim_end_seq(header_name(h) + ": "@ + v + "\r\n"@)) == Some(
            (header_name(h), v),
        ),
{
    let k = header_name(h);
    lemma_header_name_letters(h);
    assert forall|i: int| 0 <= i < k.len() implies is_name_char(#[trigger] k[i]) by {
        let c = k[i];
        assert(('a' <= c <= 'z') || ('A' <= c <= 'Z') || c == '-');
    }
    let x = k + ": "@ + v;
    assert(x.last() == v.last());
    lemma_trim_end_crlf(x);
    lemma_header_line_reads_back(k, v);
}
} // verus!
