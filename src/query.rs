//! Construction of the requests sent to the API: the query string of a
//! single request with its field selectors and credential, and the batch
//! payload.
use vstd::prelude::*;
use vstd::string::*;
use vstd::utf8::encode_utf8;

use crate::input::{address_query, batch_text, AddressParams};

verus! {

/// Bytes that `application/x-www-form-urlencoded` serialisation keeps as they are.
pub open spec fn form_unchanged(b: u8) -> bool {
    b == 0x2a || b == 0x2d || b == 0x2e || b == 0x5f || (0x30 <= b && b <= 0x39) || (0x41 <= b
        && b <= 0x5a) || (0x61 <= b && b <= 0x7a)
}

/// An upper-case hexadecimal digit.
pub open spec fn hex_upper(d: u8) -> char {
    if d < 10 {
        (d + 0x30) as char
    } else {
        (d + 0x37) as char
    }
}

/// The form encoding of one byte: kept, `+` for a space, else `%XX`.
pub open spec fn form_byte(b: u8) -> Seq<char> {
    if form_unchanged(b) {
        seq![b as char]
    } else if b == 0x20 {
        seq!['+']
    } else {
        seq!['%', hex_upper(b / 16), hex_upper(b % 16)]
    }
}

/// The form encoding of a byte string.
pub open spec fn form_encoded(bytes: Seq<u8>) -> Seq<char>
    decreases bytes.len(),
{
    if bytes.len() == 0 {
        Seq::empty()
    } else {
        form_encoded(bytes.drop_last()) + form_byte(bytes.last())
    }
}

/// Relies on `form_urlencoded::byte_serialize` (re-exported by `url`): the
/// form encoding of the UTF-8 bytes of `s`, byte by byte.
#[verifier::external_body]
fn form_encode(s: &str) -> (r: String)
    ensures
        r@ == form_encoded(encode_utf8(s@)),
{
    url::form_urlencoded::byte_serialize(s.as_bytes()).collect()
}

/// The query of a request: the caller's parameters, then the credential as
/// the `api_key` pair, always last. The separator `&` is written only after
/// non-empty parameters.
pub open spec fn credential_query(params: Seq<char>, api_key: Seq<char>) -> Seq<char> {
    (if params.len() > 0 {
        params + seq!['&']
    } else {
        params
    }) + "api_key="@ + form_encoded(encode_utf8(api_key))
}

/// Appends the credential to a query string.
pub fn request_query(params: &str, api_key: &str) -> (r: String)
    ensures
        r@ == credential_query(params@, api_key@),
{
    let mut r = String::from_str(params);
    if params.unicode_len() > 0 {
        r.append("&");
        proof {
            reveal_strlit("&");
        }
    }
    r.append("api_key=");
    let k = form_encode(api_key);
    r.append(k.as_str());
    r
}

/// The last pair of a query: the text after its last `&`.
pub open spec fn last_pair(q: Seq<char>) -> Seq<char>
    decreases q.len(),
{
    if q.len() == 0 || q.last() == '&' {
        Seq::empty()
    } else {
        last_pair(q.drop_last()).push(q.last())
    }
}

/// A text without the pair separator `&`.
pub open spec fn has_no_separator(s: Seq<char>) -> bool {
    forall|i: int| 0 <= i < s.len() ==> s[i] != '&'
}

proof fn lemma_form_byte_has_no_separator(b: u8)
    ensures
        has_no_separator(form_byte(b)),
{
    assert(b / 16 < 16 && b % 16 < 16) by (nonlinear_arith);
}

proof fn lemma_form_encoded_has_no_separator(bytes: Seq<u8>)
    ensures
        has_no_separator(form_encoded(bytes)),
    decreases bytes.len(),
{
    if bytes.len() > 0 {
        lemma_form_encoded_has_no_separator(bytes.drop_last());
        lemma_form_byte_has_no_separator(bytes.last());
        let a = form_encoded(bytes.drop_last());
        let b = form_byte(bytes.last());
        assert forall|i: int| 0 <= i < (a + b).len() implies (a + b)[i] != '&' by {
            if i >= a.len() {
                assert((a + b)[i] == b[i - a.len()]);
            }
        }
    }
}

proof fn lemma_last_pair_of_append(p: Seq<char>, s: Seq<char>)
    requires
        has_no_separator(s),
    ensures
        last_pair(p + s) == last_pair(p) + s,
    decreases s.len(),
{
    if s.len() == 0 {
        assert(p + s =~= p);
        assert(last_pair(p) + s =~= last_pair(p));
    } else {
        lemma_last_pair_of_append(p, s.drop_last());
        assert((p + s).drop_last() =~= p + s.drop_last());
        assert((p + s).last() == s.last());
        assert(s[s.len() - 1] != '&');
        assert(last_pair(p) + s =~= (last_pair(p) + s.drop_last()).push(s.last()));
    }
}

/// The credential is the last pair of every request query, whatever the
/// caller's parameters hold: a pair named `api_key` among them comes before
/// it, and the later pair of a name is the one that counts.
pub proof fn lemma_credential_is_last_pair(params: Seq<char>, api_key: Seq<char>)
    ensures
        last_pair(credential_query(params, api_key)) == "api_key="@ + form_encoded(
            encode_utf8(api_key),
        ),
{
    reveal_strlit("api_key=");
    let tail = "api_key="@ + form_encoded(encode_utf8(api_key));
    lemma_form_encoded_has_no_separator(encode_utf8(api_key));
    assert(has_no_separator(tail)) by {
        let a = "api_key="@;
        let b = form_encoded(encode_utf8(api_key));
        assert forall|i: int| 0 <= i < tail.len() implies tail[i] != '&' by {
            if i >= a.len() {
                assert(tail[i] == b[i - a.len()]);
            }
        }
    }
    let head = if params.len() > 0 {
        params + seq!['&']
    } else {
        params
    };
    assert(credential_query(params, api_key) =~= head + tail);
    lemma_last_pair_of_append(head, tail);
    if params.len() > 0 {
        assert((params + seq!['&']).last() == '&');
    }
    assert(last_pair(head) == Seq::<char>::empty());
    assert(last_pair(head) + tail =~= tail);
}

/// Field selectors joined by commas.
pub open spec fn comma_joined(fields: Seq<Seq<char>>) -> Seq<char>
    decreases fields.len(),
{
    if fields.len() == 0 {
        Seq::empty()
    } else if fields.len() == 1 {
        fields[0]
    } else {
        comma_joined(fields.drop_last()) + seq![','] + fields.last()
    }
}

/// The views of a list of field selectors.
pub open spec fn field_views(fields: Seq<&str>) -> Seq<Seq<char>> {
    fields.map_values(|f: &str| f@)
}

/// The views of optional field selectors.
pub open spec fn selector_views(fields: Option<&[&str]>) -> Option<Seq<Seq<char>>> {
    match fields {
        Some(f) => Some(field_views(f@)),
        None => None,
    }
}

/// The parameters of a single geocode request: the address, then the
/// requested field selectors, if any, as one comma-joined `fields` pair.
pub open spec fn geocode_query(
    address: AddressParams,
    fields: Option<Seq<Seq<char>>>,
) -> Seq<char> {
    address_query(address) + match fields {
        Some(f) => "&fields="@ + comma_joined(f),
        None => Seq::empty(),
    }
}

/// Joins field selectors with commas.
pub fn join_fields(fields: &[&str]) -> (r: String)
    ensures
        r@ == comma_joined(field_views(fields@)),
{
    let mut r = String::new();
    let mut i: usize = 0;
    while i < fields.len()
        invariant
            0 <= i <= fields@.len(),
            r@ == comma_joined(field_views(fields@.subrange(0, i as int))),
        decreases fields@.len() - i,
    {
        proof {
            let prev = fields@.subrange(0, i as int);
            let next = fields@.subrange(0, i + 1 as int);
            assert(next.drop_last() =~= prev);
            assert(field_views(next).drop_last() =~= field_views(prev));
        }
        if i > 0 {
            r.append(",");
            proof {
                reveal_strlit(",");
            }
        }
        r.append(fields[i]);
        i = i + 1;
    }
    assert(fields@.subrange(0, fields@.len() as int) =~= fields@);
    r
}

/// The parameters of a single geocode request.
pub fn geocode_params(address: &AddressParams, fields: Option<&[&str]>) -> (r: String)
    ensures
        r@ == geocode_query(*address, selector_views(fields)),
{
    let mut r = address.query_string();
    match fields {
        Some(f) => {
            r.append("&fields=");
            let j = join_fields(f);
            r.append(j.as_str());
        },
        None => {},
    }
    r
}

/// Where a request goes: an endpoint path, relative to the API's base URL,
/// and the full query string.
pub struct RequestTarget {
    pub endpoint: String,
    pub query: String,
}

/// The target of a request to `endpoint` with the caller's parameters and
/// the credential appended last.
pub fn request_target(endpoint: &str, params: &str, api_key: &str) -> (r: RequestTarget)
    ensures
        r.endpoint@ == endpoint@,
        r.query@ == credential_query(params@, api_key@),
{
    RequestTarget { endpoint: String::from_str(endpoint), query: request_query(params, api_key) }
}

/// The body of a batch request: the text of each address, in the order of
/// the input. The body is sent as a JSON array of these strings.
pub fn batch_payload(addresses: &Vec<AddressParams>) -> (r: Vec<String>)
    ensures
        r@.len() == addresses@.len(),
        forall|i: int|
            0 <= i < r@.len() ==> #[trigger] r@[i]@ == batch_text(addresses@[i]),
{
    let mut r: Vec<String> = Vec::new();
    let mut i: usize = 0;
    while i < addresses.len()
        invariant
            0 <= i <= addresses@.len(),
            r@.len() == i,
            forall|j: int|
                0 <= j < i ==> #[trigger] r@[j]@ == batch_text(addresses@[j]),
        decreases addresses@.len() - i,
    {
        r.push(addresses[i].batch_text());
        i = i + 1;
    }
    r
}

/// The target of a single geocode request.
pub fn geocode_target(address: &AddressParams, fields: Option<&[&str]>, api_key: &str) -> (r:
    RequestTarget)
    ensures
        r.endpoint@ == "geocode"@,
        r.query@ == credential_query(geocode_query(*address, selector_views(fields)), api_key@),
{
    let params = geocode_params(address, fields);
    request_target("geocode", params.as_str(), api_key)
}

} // verus!
