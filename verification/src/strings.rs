//! Text the control plane derives from node data: identifiers, host
//! names, request bodies for the DNS and certificate providers, and the
//! flag and city fields of a store row. Everything here is a pure
//! function of its inputs; three small helpers lean on std string
//! methods that vstd gives no specification.

use vstd::prelude::*;
use vstd::string::{StrSliceExecFns, StringExecFns, string_is_ascii};

verus! {

/// What `str::to_lowercase` returns: a function of the characters alone.
pub uninterp spec fn lower_of(s: Seq<char>) -> Seq<char>;

/// An ASCII letter mapped to its lowercase counterpart; any other
/// character kept.
pub open spec fn ascii_lower_char(c: char) -> char {
    if 'A' <= c <= 'Z' {
        (((c as u8) + 32) as char)
    } else {
        c
    }
}

/// Relies on str::to_lowercase: the result depends on the characters
/// alone, and on an ASCII string it lowercases exactly the letters
/// `A`–`Z`.
#[verifier::external_body]
pub fn to_lowercase(s: &String) -> (r: String)
    ensures
        r@ == lower_of(s@),
        string_is_ascii(s) ==> r@ == s@.map_values(|c: char| ascii_lower_char(c)),
{
    s.as_str().to_lowercase()
}

/// Every space replaced by a dash; nothing else changes.
pub open spec fn space_to_dash(s: Seq<char>) -> Seq<char> {
    s.map_values(|c: char| if c == ' ' { '-' } else { c })
}

/// Relies on str::replace with the one-character pattern `" "`: every
/// space becomes a dash and all other characters stay in place.
#[verifier::external_body]
fn replace_space_dash(s: &String) -> (r: String)
    ensures
        r@ == space_to_dash(s@),
{
    s.replace(" ", "-")
}

/// The flag column of a store row: the country lowercased, with spaces
/// turned into dashes.
pub fn flag_of(country: &String) -> (r: String)
    ensures
        r@ == space_to_dash(lower_of(country@)),
{
    let lowered = to_lowercase(country);
    replace_space_dash(&lowered)
}

/// The sequence with every carriage return dropped.
pub open spec fn without_cr(s: Seq<char>) -> Seq<char> {
    s.filter(|c: char| c != '\r')
}

/// Relies on str::replace with the one-character pattern `"\r"` and an
/// empty replacement: carriage returns are deleted and nothing else
/// changes.
#[verifier::external_body]
pub fn strip_carriage_returns(s: &String) -> (r: String)
    ensures
        r@ == without_cr(s@),
{
    s.replace("\r", "")
}

/// Each newline written out as the two characters `\` `n`; all other
/// characters kept.
pub open spec fn escape_nl(s: Seq<char>) -> Seq<char>
    decreases s.len(),
{
    if s.len() == 0 {
        Seq::empty()
    } else if s[0] == '\n' {
        seq!['\\', 'n'] + escape_nl(s.drop_first())
    } else {
        seq![s[0]] + escape_nl(s.drop_first())
    }
}

proof fn lemma_escape_nl_add(a: Seq<char>, b: Seq<char>)
    ensures
        escape_nl(a + b) == escape_nl(a) + escape_nl(b),
    decreases a.len(),
{
    if a.len() == 0 {
        assert(a + b =~= b);
        assert(escape_nl(a) + escape_nl(b) =~= escape_nl(b));
    } else {
        assert((a + b).drop_first() =~= a.drop_first() + b);
        assert((a + b)[0] == a[0]);
        lemma_escape_nl_add(a.drop_first(), b);
        if a[0] == '\n' {
            assert(escape_nl(a + b) =~= escape_nl(a) + escape_nl(b));
        } else {
            assert(escape_nl(a + b) =~= escape_nl(a) + escape_nl(b));
        }
    }
}

/// The newline-escaped form of the given text, as the certificate
/// authority expects a PEM body to be embedded in JSON.
pub fn escape_newlines(s: &String) -> (r: String)
    ensures
        r@ == escape_nl(s@),
{
    let st: &str = s.as_str();
    let n: usize = st.unicode_len();
    let mut out = String::new();
    let mut i: usize = 0;
    proof {
        assert(st@.take(0) =~= Seq::<char>::empty());
    }
    while i < n
        invariant
            i <= n,
            n == st@.len(),
            st@ == s@,
            out@ == escape_nl(st@.take(i as int)),
        decreases n - i,
    {
        let c = st.get_char(i);
        let ghost prev = out@;
        if c == '\n' {
            out.append("\\n");
            proof {
                reveal_strlit("\\n");
                assert("\\n"@ =~= seq!['\\', 'n']);
            }
        } else {
            let piece = st.substring_char(i, i + 1);
            out.append(piece);
            proof {
                assert(piece@ =~= seq![st@[i as int]]);
            }
        }
        proof {
            let single = seq![st@[i as int]];
            assert(st@.take(i as int + 1) =~= st@.take(i as int) + single);
            lemma_escape_nl_add(st@.take(i as int), single);
            assert(single.len() == 1 && single[0] == st@[i as int]);
            assert(single.drop_first() =~= Seq::<char>::empty());
            assert(escape_nl(single.drop_first()) == Seq::<char>::empty());
            if st@[i as int] == '\n' {
                assert(escape_nl(single) == seq!['\\', 'n'] + escape_nl(single.drop_first()));
                assert(escape_nl(single) =~= seq!['\\', 'n']);
            } else {
                assert(escape_nl(single) == seq![single[0]] + escape_nl(single.drop_first()));
                assert(escape_nl(single) =~= single);
            }
        }
        i = i + 1;
    }
    proof {
        assert(st@.take(n as int) =~= st@);
    }
    out
}

/// The position of the first occurrence of `c` in `s` at or after `from`,
/// or the length of `s` if there is none.
pub open spec fn char_index_from(s: Seq<char>, c: char, from: int) -> int
    decreases s.len() - from,
{
    if from >= s.len() || from < 0 {
        s.len() as int
    } else if s[from] == c {
        from
    } else {
        char_index_from(s, c, from + 1)
    }
}

proof fn lemma_char_index_from(s: Seq<char>, c: char, from: int)
    requires
        0 <= from <= s.len(),
    ensures
        from <= char_index_from(s, c, from) <= s.len(),
        char_index_from(s, c, from) < s.len() ==> s[char_index_from(s, c, from)] == c,
        forall|k: int| from <= k < char_index_from(s, c, from) ==> s[k] != c,
    decreases s.len() - from,
{
    if from < s.len() && s[from] != c {
        lemma_char_index_from(s, c, from + 1);
    }
}

/// Position of the first occurrence of `c` at or after `from`, or the
/// character length of `s` if there is none.
fn find_char_from(s: &str, c: char, from: usize) -> (r: usize)
    requires
        from <= s@.len(),
    ensures
        r == char_index_from(s@, c, from as int),
        s@.len() <= usize::MAX,
{
    let n: usize = s.unicode_len();
    let mut i: usize = from;
    while i < n
        invariant
            from <= i <= n,
            n == s@.len(),
            char_index_from(s@, c, from as int) == char_index_from(s@, c, i as int),
        decreases n - i,
    {
        if s.get_char(i) == c {
            return i;
        }
        i = i + 1;
    }
    n
}

/// Whether the text has a `/` and therefore a second `/`-separated
/// segment (possibly empty).
pub open spec fn has_second_segment(s: Seq<char>) -> bool {
    char_index_from(s, '/', 0) < s.len()
}

/// The second `/`-separated segment: the characters between the first
/// `/` and the next one, or the end.
pub open spec fn second_segment(s: Seq<char>) -> Seq<char> {
    let i = char_index_from(s, '/', 0);
    let j = char_index_from(s, '/', i + 1);
    s.subrange(i + 1, j)
}

/// The city part of a timezone such as `Pacific/Auckland`: the segment
/// after the first `/`, up to the next one. The timezone must contain a
/// `/`.
pub fn timezone_city(tz: &String) -> (r: String)
    requires
        has_second_segment(tz@),
    ensures
        r@ == second_segment(tz@),
{
    let st: &str = tz.as_str();
    let i = find_char_from(st, '/', 0);
    proof {
        lemma_char_index_from(st@, '/', 0);
    }
    let j = find_char_from(st, '/', i + 1);
    proof {
        lemma_char_index_from(st@, '/', i as int + 1);
    }
    st.substring_char(i + 1, j).to_owned()
}

/// The host name carrying a node's non-proxied record: the IP with
/// `.dns` appended.
pub fn dns_name(ip: &String) -> (r: String)
    ensures
        r@ == ip@ + ".dns"@,
{
    ip.clone().concat(".dns")
}

/// The host name a certificate is requested for: the identifier under
/// the service domain.
pub fn cert_hostname(id: &String) -> (r: String)
    ensures
        r@ == id@ + ".reseda.app"@,
{
    id.clone().concat(".reseda.app")
}

/// The URL of a node's health endpoint.
pub fn health_url(id: &String) -> (r: String)
    ensures
        r@ == "https://"@ + id@ + ".dns.reseda.app/health"@,
{
    String::from_str("https://").concat(id.as_str()).concat(".dns.reseda.app/health")
}

/// The request body creating an A record for `identifier` pointing at
/// `content`, with the fixed TTL and priority.
pub open spec fn dns_record_body_spec(identifier: Seq<char>, content: Seq<char>, proxied: bool) -> Seq<char> {
    "\n        {\n            \"type\": \"A\",\n            \"name\": \""@ + identifier
        + "\",\n            \"content\": \""@ + content
        + "\",\n            \"ttl\": 3600,\n            \"priority\": 10,\n            \"proxied\": "@
        + (if proxied {
        "true"@
    } else {
        "false"@
    }) + "\n        }"@
}

/// Builds the DNS provider's record-creation body.
pub fn dns_record_body(identifier: &String, content: &String, proxied: bool) -> (r: String)
    ensures
        r@ == dns_record_body_spec(identifier@, content@, proxied),
{
    let mut out = String::from_str(
        "\n        {\n            \"type\": \"A\",\n            \"name\": \"",
    );
    out.append(identifier.as_str());
    out.append("\",\n            \"content\": \"");
    out.append(content.as_str());
    out.append(
        "\",\n            \"ttl\": 3600,\n            \"priority\": 10,\n            \"proxied\": ",
    );
    if proxied {
        out.append("true");
    } else {
        out.append("false");
    }
    out.append("\n        }");
    out
}

/// The request body asking the certificate authority to sign `csr` for
/// the identifier's host name, with the fixed validity and request type.
pub open spec fn cert_request_body_spec(identifier: Seq<char>, csr: Seq<char>) -> Seq<char> {
    "\n        {\n            \"hostnames\": [\n                \""@ + identifier
        + ".reseda.app\"\n            ],\n            \"requested_validity\": 5475,\n            \"request_type\": \"origin-rsa\",\n            \"csr\": \""@
        + csr + "\"\n        }"@
}

/// Builds the certificate authority's signing-request body.
pub fn cert_request_body(identifier: &String, csr: &String) -> (r: String)
    ensures
        r@ == cert_request_body_spec(identifier@, csr@),
{
    let mut out = String::from_str("\n        {\n            \"hostnames\": [\n                \"");
    out.append(identifier.as_str());
    out.append(
        ".reseda.app\"\n            ],\n            \"requested_validity\": 5475,\n            \"request_type\": \"origin-rsa\",\n            \"csr\": \"",
    );
    out.append(csr.as_str());
    out.append("\"\n        }");
    out
}

} // verus!
