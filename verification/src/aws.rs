use vstd::prelude::*;
use vstd::utf8::{decode_utf8, encode_utf8, valid_utf8};

use base64::Engine;
use serde_urlencoded::ser::Error as UrlEncodeError;
use rusoto_core::credential::AwsCredentials;
use rusoto_core::signature::SignedRequest;
use rusoto_core::Region;

use crate::http::pairs_view;
use crate::vault::{join_with, strings_view};

verus! {

/// Payload for use when authenticating with Vault AWS Authentication using the IAM method
///
/// See [Vault's Documentation](https://www.vaultproject.io/docs/auth/aws.html#iam-auth-method)
/// for more information.
#[derive(Clone, Debug, PartialEq, Eq)]
pub struct VaultAwsAuthIamPayload {
    /// HTTP method used in the signed request. Currently only `POST` is supported
    pub iam_http_request_method: String,
    /// Base64-encoded HTTP URL used in the signed request
    pub iam_request_url: String,
    /// Base64-encoded body of the signed request
    pub iam_request_body: String,
    /// Headers of the signed request, one entry per header name
    pub iam_request_headers: Vec<(String, Vec<String>)>,
}

/// The texts of a list of headers, each with its values.
pub open spec fn headers_view(h: Seq<(String, Vec<String>)>) -> Seq<(Seq<char>, Seq<Seq<char>>)> {
    h.map_values(|x: (String, Vec<String>)| (x.0@, strings_view(x.1@)))
}

/// The texts of a `VaultAwsAuthIamPayload`
pub struct IamPayloadView {
    pub method: Seq<char>,
    pub url: Seq<char>,
    pub body: Seq<char>,
    pub headers: Seq<(Seq<char>, Seq<Seq<char>>)>,
}

impl View for VaultAwsAuthIamPayload {
    type V = IamPayloadView;

    open spec fn view(&self) -> IamPayloadView {
        IamPayloadView {
            method: self.iam_http_request_method@,
            url: self.iam_request_url@,
            body: self.iam_request_body@,
            headers: headers_view(self.iam_request_headers@),
        }
    }
}

/// A copy of a list of strings.
pub fn copy_strings(v: &Vec<String>) -> (r: Vec<String>)
    ensures
        strings_view(r@) == strings_view(v@),
{
    let mut r: Vec<String> = Vec::new();
    let mut i: usize = 0;
    while i < v.len()
        invariant
            i <= v.len(),
            r@.len() == i,
            forall|k: int| 0 <= k < i ==> (#[trigger] r@[k])@ == v@[k]@,
        decreases v.len() - i,
    {
        r.push(v[i].clone());
        i = i + 1;
    }
    assert(strings_view(r@) =~= strings_view(v@));
    r
}

impl VaultAwsAuthIamPayload {
    /// A copy of the payload, with the same texts.
    pub fn duplicate(&self) -> (r: Self)
        ensures
            r@ == self@,
    {
        let src = &self.iam_request_headers;
        let mut headers: Vec<(String, Vec<String>)> = Vec::new();
        let mut i: usize = 0;
        while i < src.len()
            invariant
                i <= src.len(),
                headers@.len() == i,
                forall|k: int| 0 <= k < i ==> (#[trigger] headers@[k]).0@ == src@[k].0@
                    && strings_view(headers@[k].1@) == strings_view(src@[k].1@),
            decreases src.len() - i,
        {
            let (name, values) = &src[i];
            headers.push((name.clone(), copy_strings(values)));
            i = i + 1;
        }
        assert(headers_view(headers@) =~= headers_view(src@));
        VaultAwsAuthIamPayload {
            iam_http_request_method: self.iam_http_request_method.clone(),
            iam_request_url: self.iam_request_url.clone(),
            iam_request_body: self.iam_request_body.clone(),
            iam_request_headers: headers,
        }
    }
}


// Reference:
// https://github.com/hashicorp/vault/blob/d12547c7faa9c216d1411827bc16606535cb3e61/builtin/credential/aws/path_login.go#L1640
/// Header that carries the value that Vault's `iam_server_id_header_value` expects
pub const IAM_SERVER_ID_HEADER: &'static str = "X-Vault-AWS-IAM-Server-ID";

/// The digit of the standard base64 alphabet that stands for `v` (`v < 64`).
pub open spec fn base64_digit(v: nat) -> char {
    if v < 26 {
        ((v + 'A' as nat) as u32) as char
    } else if v < 52 {
        ((v - 26 + 'a' as nat) as u32) as char
    } else if v < 62 {
        ((v - 52 + '0' as nat) as u32) as char
    } else if v == 62 {
        '+'
    } else {
        '/'
    }
}

/// Base64 with the standard alphabet and `=` padding (RFC 4648, section 4): each group of
/// three bytes becomes four digits; a last group of one or two bytes becomes two or three
/// digits and is padded with `=` to four.
pub open spec fn base64_standard(d: Seq<u8>) -> Seq<char>
    decreases d.len(),
{
    if d.len() == 0 {
        seq![]
    } else if d.len() == 1 {
        seq![base64_digit(d[0] as nat / 4), base64_digit((d[0] as nat % 4) * 16), '=', '=']
    } else if d.len() == 2 {
        seq![
            base64_digit(d[0] as nat / 4),
            base64_digit((d[0] as nat % 4) * 16 + d[1] as nat / 16),
            base64_digit((d[1] as nat % 16) * 4),
            '=',
        ]
    } else {
        seq![
            base64_digit(d[0] as nat / 4),
            base64_digit((d[0] as nat % 4) * 16 + d[1] as nat / 16),
            base64_digit((d[1] as nat % 16) * 4 + d[2] as nat / 64),
            base64_digit(d[2] as nat % 64),
        ] + base64_standard(d.subrange(3, d.len() as int))
    }
}

/// `base64::engine::general_purpose::STANDARD.encode`: base64 with the standard alphabet
/// and padding, as the crate documents it.
#[verifier::external_body]
fn base64_encode(data: &[u8]) -> (r: String)
    ensures
        r@ == base64_standard(data@),
{
    base64::engine::general_purpose::STANDARD.encode(data)
}

/// Whether `form_urlencoded::byte_serialize` writes the byte `b` as it is: `*`, `-`, `.`,
/// `_`, an ASCII digit or an ASCII letter.
pub open spec fn form_unchanged(b: u8) -> bool {
    ||| b == 0x2a || b == 0x2d || b == 0x2e || b == 0x5f
    ||| 0x30 <= b <= 0x39
    ||| 0x41 <= b <= 0x5a
    ||| 0x61 <= b <= 0x7a
}

/// The uppercase hexadecimal digit that stands for `d` (`d < 16`).
pub open spec fn hex_digit(d: nat) -> char {
    if d < 10 {
        ((d + '0' as nat) as u32) as char
    } else {
        ((d - 10 + 'A' as nat) as u32) as char
    }
}

/// `form_urlencoded::byte_serialize`: each byte that `form_unchanged` keeps as its
/// character, a space as `+`, any other byte as `%` and two uppercase hexadecimal digits.
pub open spec fn form_encode_bytes(b: Seq<u8>) -> Seq<char>
    decreases b.len(),
{
    if b.len() == 0 {
        seq![]
    } else {
        let f = b[0];
        let head = if form_unchanged(f) {
            seq![(f as u32) as char]
        } else if f == 0x20 {
            seq!['+']
        } else {
            seq!['%', hex_digit(f as nat / 16), hex_digit(f as nat % 16)]
        };
        head + form_encode_bytes(b.drop_first())
    }
}

/// The `application/x-www-form-urlencoded` text of a list of key and value pairs as
/// `serde_urlencoded::to_string` writes it: each pair as its encoded key, `=` and its
/// encoded value (UTF-8 bytes through `form_encode_bytes`), with `&` between pairs.
pub open spec fn form_urlencoded(pairs: Seq<(Seq<char>, Seq<char>)>) -> Seq<char>
    decreases pairs.len(),
{
    if pairs.len() == 0 {
        seq![]
    } else {
        let last = pairs.last();
        let text = form_encode_bytes(encode_utf8(last.0)) + "="@ + form_encode_bytes(encode_utf8(last.1));
        if pairs.len() == 1 {
            text
        } else {
            form_urlencoded(pairs.drop_last()) + "&"@ + text
        }
    }
}

/// `serde_urlencoded::ser::Error`, carried through as it is.
#[verifier::external_type_specification]
#[verifier::external_body]
pub struct ExUrlEncodeError(UrlEncodeError);

/// `serde_urlencoded::to_string` on a list of string pairs: each pair goes through
/// `form_urlencoded::Serializer::append_pair`, which the crate documents and
/// `form_urlencoded` states. The serializer fails only on values that are not sequences of
/// pairs of scalars, so on a list of string pairs it succeeds.
#[verifier::external_body]
fn form_urlencode(pairs: &Vec<(String, String)>) -> (encoded: Result<String, UrlEncodeError>)
    ensures
        encoded is Ok,
        encoded->Ok_0@ == form_urlencoded(pairs_view(pairs@)),
{
    serde_urlencoded::to_string(pairs)
}

/// The text of `String::from_utf8_lossy` of some bytes.
pub uninterp spec fn utf8_lossy(bytes: Seq<u8>) -> Seq<char>;

/// `String::from_utf8_lossy`, made an owned `String`: std documents that valid UTF-8 is
/// decoded as it is; what replaces invalid sequences is not stated here.
#[verifier::external_body]
fn bytes_to_text(bytes: &[u8]) -> (r: String)
    ensures
        r@ == utf8_lossy(bytes@),
        valid_utf8(bytes@) ==> r@ == decode_utf8(bytes@),
{
    String::from_utf8_lossy(bytes).into_owned()
}

/// `rusoto_core::Region`, carried through as it is.
#[verifier::external_type_specification]
#[verifier::external_body]
pub struct ExRegion(Region);

/// `rusoto_core::credential::AwsCredentials`, carried through as it is.
#[verifier::external_type_specification]
#[verifier::external_body]
pub struct ExAwsCredentials(AwsCredentials);

/// `rusoto_core::signature::SignedRequest`, carried through as it is.
#[verifier::external_type_specification]
#[verifier::external_body]
pub struct ExSignedRequest(SignedRequest);

/// `Region::default()`: it reads the environment and the AWS profile, so nothing is
/// stated of the region.
#[verifier::external_body]
fn default_region() -> Region {
    Region::default()
}

/// The headers that a `SignedRequest` holds: its `headers` map, from each (lowercase)
/// name to the values added under it, in the order in which they were added.
pub uninterp spec fn signed_headers(request: SignedRequest) -> Map<Seq<char>, Seq<Seq<u8>>>;

/// The method that `SignedRequest::method` gives for a request.
pub uninterp spec fn signed_method(request: SignedRequest) -> Seq<char>;

/// The bytes of a request's buffer payload (its `payload` field); `None` when it has no
/// payload or a stream.
pub uninterp spec fn signed_payload(request: SignedRequest) -> Option<Seq<u8>>;

/// The scheme that `SignedRequest::scheme` gives for a request.
pub uninterp spec fn signed_scheme(request: SignedRequest) -> Seq<char>;

/// The host name that `SignedRequest::hostname` gives for a request.
pub uninterp spec fn signed_hostname(request: SignedRequest) -> Seq<char>;

/// The path that `SignedRequest::canonical_path` gives for a request.
pub uninterp spec fn signed_path(request: SignedRequest) -> Seq<char>;

/// The scheme of a request to `region` that sets none of its own: `http` or `https`,
/// after the endpoint of a custom region (`SignedRequest::scheme`).
pub uninterp spec fn region_scheme(region: Region) -> Seq<char>;

/// The host of `service` in `region` (rusoto's `build_hostname`).
pub uninterp spec fn region_hostname(service: Seq<char>, region: Region) -> Seq<char>;

/// The canonical form of `path` for `region` (rusoto's `canonical_uri`).
pub uninterp spec fn region_path(path: Seq<char>, region: Region) -> Seq<char>;

/// The access key id of AWS credentials (`AwsCredentials::aws_access_key_id`).
pub uninterp spec fn access_key_id(credentials: AwsCredentials) -> Seq<char>;

/// What a request is sent as: its method, payload, scheme, host and path.
pub open spec fn request_target(r: SignedRequest) -> (Seq<char>, Option<Seq<u8>>, Seq<char>, Seq<char>, Seq<char>) {
    (signed_method(r), signed_payload(r), signed_scheme(r), signed_hostname(r), signed_path(r))
}

/// `s` with the ASCII letters `A` to `Z` made lowercase, as `str::make_ascii_lowercase` does.
pub open spec fn ascii_lowercase(s: Seq<char>) -> Seq<char> {
    s.map_values(|c: char| if 'A' <= c && c <= 'Z' { ((c as u32) + 32) as char } else { c })
}

/// The headers `m` with `value` added after the values already under `name`.
pub open spec fn with_header_value(
    m: Map<Seq<char>, Seq<Seq<u8>>>,
    name: Seq<char>,
    value: Seq<u8>,
) -> Map<Seq<char>, Seq<Seq<u8>>> {
    let before = if m.dom().contains(name) { m[name] } else { seq![] };
    m.insert(name, before.push(value))
}

/// The headers that signing sets anew: host, length, date, session token, payload hash
/// and authorization.
pub open spec fn is_signing_header(name: Seq<char>) -> bool {
    ||| name == "host"@
    ||| name == "content-length"@
    ||| name == "x-amz-date"@
    ||| name == "x-amz-security-token"@
    ||| name == "x-amz-content-sha256"@
    ||| name == "authorization"@
}

/// The headers that a signature leaves out of its canonical request.
pub open spec fn is_unsigned_header(name: Seq<char>) -> bool {
    name == "authorization"@ || name == "content-length"@ || name == "user-agent"@
}

/// Whether every value of the headers that a signature covers is UTF-8.
pub open spec fn signable_headers(m: Map<Seq<char>, Seq<Seq<u8>>>) -> bool {
    forall|k: Seq<char>, j: int| #[trigger] m.dom().contains(k) && !is_unsigned_header(k) && 0 <= j < m[k].len()
        ==> valid_utf8(#[trigger] m[k][j])
}

/// `SignedRequest::new`: a request without headers or payload, with the method given and
/// the scheme, host and path that the region calls for.
#[verifier::external_body]
fn signed_request_new(method: &str, service: &str, region: &Region, path: &str) -> (created: SignedRequest)
    ensures
        signed_headers(created).dom().is_empty(),
        request_target(created) == (
            method@,
            None::<Seq<u8>>,
            region_scheme(*region),
            region_hostname(service@, *region),
            region_path(path@, *region),
        ),
{
    SignedRequest::new(method, service, region, path)
}

/// `SignedRequest::set_payload` with a buffer: it sets the payload and leaves the rest.
#[verifier::external_body]
fn signed_request_set_payload(request: &mut SignedRequest, payload: Vec<u8>)
    ensures
        signed_headers(*final(request)) == signed_headers(*old(request)),
        signed_payload(*final(request)) == Some(payload@),
        signed_method(*final(request)) == signed_method(*old(request)),
        signed_scheme(*final(request)) == signed_scheme(*old(request)),
        signed_hostname(*final(request)) == signed_hostname(*old(request)),
        signed_path(*final(request)) == signed_path(*old(request)),
{
    request.set_payload(Some(payload))
}

/// `SignedRequest::set_content_type`: adds the value under `content-type`.
#[verifier::external_body]
fn signed_request_set_content_type(request: &mut SignedRequest, content_type: String)
    ensures
        signed_headers(*final(request))
            == with_header_value(signed_headers(*old(request)), "content-type"@, encode_utf8(content_type@)),
        request_target(*final(request)) == request_target(*old(request)),
{
    request.set_content_type(content_type)
}

/// `SignedRequest::add_header`: adds the bytes of `value` under the name `key` made
/// ASCII-lowercase.
#[verifier::external_body]
fn signed_request_add_header(request: &mut SignedRequest, key: &str, value: &str)
    ensures
        signed_headers(*final(request))
            == with_header_value(signed_headers(*old(request)), ascii_lowercase(key@), encode_utf8(value@)),
        request_target(*final(request)) == request_target(*old(request)),
{
    request.add_header(key, value)
}

/// Whether `a` comes before `b` in the order of their bytes, the order of `String` keys
/// in a `BTreeMap`.
pub open spec fn bytes_lt(a: Seq<u8>, b: Seq<u8>) -> bool
    decreases a.len(),
{
    if a.len() == 0 {
        b.len() > 0
    } else if b.len() == 0 {
        false
    } else if a[0] != b[0] {
        a[0] < b[0]
    } else {
        bytes_lt(a.drop_first(), b.drop_first())
    }
}

/// Whether the list `h` holds the headers `m`, one entry per name, in the order of their
/// names' bytes.
pub open spec fn lists_headers(h: Seq<(Seq<char>, Seq<Seq<u8>>)>, m: Map<Seq<char>, Seq<Seq<u8>>>) -> bool {
    &&& forall|i: int, j: int| 0 <= i < j < h.len() ==> bytes_lt(encode_utf8(h[i].0), encode_utf8(h[j].0))
    &&& forall|i: int| 0 <= i < h.len() ==> m.dom().contains((#[trigger] h[i]).0) && m[h[i].0] == h[i].1
    &&& forall|k: Seq<char>| #[trigger] m.dom().contains(k) ==> exists|i: int| 0 <= i < h.len() && (#[trigger] h[i]).0 == k
}

/// Whether `names` are the names of the headers `m` that a signature covers, in the order
/// of their bytes.
pub open spec fn signed_names(names: Seq<Seq<char>>, m: Map<Seq<char>, Seq<Seq<u8>>>) -> bool {
    &&& forall|i: int, j: int| 0 <= i < j < names.len() ==> bytes_lt(encode_utf8(names[i]), encode_utf8(names[j]))
    &&& forall|i: int| 0 <= i < names.len() ==> m.dom().contains(#[trigger] names[i]) && !is_unsigned_header(names[i])
    &&& forall|k: Seq<char>| #[trigger] m.dom().contains(k) && !is_unsigned_header(k)
        ==> exists|i: int| 0 <= i < names.len() && #[trigger] names[i] == k
}

/// Whether `a` is an AWS Signature Version 4 authorization with the access key id `key`
/// that covers the headers of `m`: `AWS4-HMAC-SHA256 Credential={key}/{scope},
/// SignedHeaders={names joined with ;}, Signature={signature}`.
pub open spec fn sigv4_authorization(a: Seq<char>, key: Seq<char>, m: Map<Seq<char>, Seq<Seq<u8>>>) -> bool {
    exists|scope: Seq<char>, names: Seq<Seq<char>>, signature: Seq<char>|
        signed_names(names, m) && a == #[trigger] sigv4_text(key, scope, names, signature)
}

/// The text of an AWS Signature Version 4 authorization.
pub open spec fn sigv4_text(key: Seq<char>, scope: Seq<char>, names: Seq<Seq<char>>, signature: Seq<char>) -> Seq<char> {
    "AWS4-HMAC-SHA256 Credential="@ + key + "/"@ + scope + ", SignedHeaders="@ + join_with(names, ";"@)
        + ", Signature="@ + signature
}

/// Whether the headers `m` carry a signature with the access key id `key` of a request to
/// the host `host`: the host header, one date, one payload hash and one authorization.
pub open spec fn carries_signature(m: Map<Seq<char>, Seq<Seq<u8>>>, host: Seq<char>, key: Seq<char>) -> bool {
    &&& m.dom().contains("host"@) && m["host"@] == seq![encode_utf8(host)]
    &&& m.dom().contains("x-amz-date"@) && m["x-amz-date"@].len() == 1
    &&& m.dom().contains("x-amz-content-sha256"@) && m["x-amz-content-sha256"@].len() == 1
    &&& m.dom().contains("authorization"@) && m["authorization"@].len() == 1
    &&& exists|a: Seq<char>| m["authorization"@][0] == encode_utf8(a) && #[trigger] sigv4_authorization(a, key, m)
}

/// `SignedRequest::sign`: AWS Signature Version 4 over the current time. It reads every
/// value of the headers it covers as UTF-8 and panics on one that is not, so those are
/// required to be UTF-8. It sets the signing headers anew (`is_signing_header`): the host
/// header to the request's host name, one date, one payload hash and one authorization
/// with the credentials' access key id and the names of the headers it covers; it adds
/// `content-type` when it is missing, and leaves every other header, the method, the
/// payload, the scheme, the host and the path as they were. The date, the hash, the scope
/// and signature in the authorization, the session token and `content-length` are not
/// stated.
#[verifier::external_body]
fn signed_request_sign(request: &mut SignedRequest, credentials: &AwsCredentials)
    requires
        signable_headers(signed_headers(*old(request))),
    ensures
        carries_signature(
            signed_headers(*final(request)),
            signed_hostname(*final(request)),
            access_key_id(*credentials),
        ),
        forall|k: Seq<char>| !is_signing_header(k) && #[trigger] signed_headers(*old(request)).dom().contains(k)
            ==> signed_headers(*final(request)).dom().contains(k)
                && signed_headers(*final(request))[k] == signed_headers(*old(request))[k],
        forall|k: Seq<char>| !is_signing_header(k) && k != "content-type"@
            && #[trigger] signed_headers(*final(request)).dom().contains(k)
            ==> signed_headers(*old(request)).dom().contains(k),
        request_target(*final(request)) == request_target(*old(request)),
{
    request.sign(credentials)
}

/// `SignedRequest::scheme`, a function of the request (named `signed_scheme`).
#[verifier::external_body]
fn signed_request_scheme(request: &SignedRequest) -> (scheme: String)
    ensures
        scheme@ == signed_scheme(*request),
{
    request.scheme()
}

/// `SignedRequest::hostname`, a function of the request (named `signed_hostname`).
#[verifier::external_body]
fn signed_request_hostname(request: &SignedRequest) -> (hostname: String)
    ensures
        hostname@ == signed_hostname(*request),
{
    request.hostname()
}

/// `SignedRequest::canonical_path`, a function of the request (named `signed_path`).
#[verifier::external_body]
fn signed_request_canonical_path(request: &SignedRequest) -> (path: String)
    ensures
        path@ == signed_path(*request),
{
    request.canonical_path()
}

/// Whether no two entries of a list of pairs share their first component.
pub open spec fn distinct_names<V>(h: Seq<(Seq<char>, V)>) -> bool {
    forall|i: int, j: int| 0 <= i < j < h.len() ==> h[i].0 != h[j].0
}

/// The names of a list of raw headers, each with its values.
pub open spec fn raw_headers_view(h: Seq<(String, Vec<Vec<u8>>)>) -> Seq<(Seq<char>, Seq<Seq<u8>>)> {
    h.map_values(|x: (String, Vec<Vec<u8>>)| (x.0@, x.1@.map_values(|v: Vec<u8>| v@)))
}

/// `SignedRequest::headers`, a `BTreeMap` walked into a list: one entry per name, each
/// with the values under that name, in the order of the names' bytes.
#[verifier::external_body]
fn signed_request_headers(request: &SignedRequest) -> (r: Vec<(String, Vec<Vec<u8>>)>)
    ensures
        distinct_names(raw_headers_view(r@)),
        lists_headers(raw_headers_view(r@), signed_headers(*request)),
{
    request.headers().iter().map(|(k, v)| (k.clone(), v.clone())).collect()
}

/// The texts of the values of raw headers, as `String::from_utf8_lossy` reads them.
pub open spec fn decoded_headers(h: Seq<(Seq<char>, Seq<Seq<u8>>)>) -> Seq<(Seq<char>, Seq<Seq<char>>)> {
    h.map_values(|x: (Seq<char>, Seq<Seq<u8>>)| (x.0, x.1.map_values(|v: Seq<u8>| utf8_lossy(v))))
}

/// The query that the payload signs: a `GetCallerIdentity` call of the STS API.
pub open spec fn sts_query() -> Seq<(Seq<char>, Seq<char>)> {
    seq![("Action"@, "GetCallerIdentity"@), ("Version"@, "2011-06-15"@)]
}

/// A text of ASCII characters that `form_unchanged` keeps is encoded as itself.
proof fn lemma_form_encode_plain(s: Seq<char>)
    requires
        forall|i: int| 0 <= i < s.len() ==> (#[trigger] s[i] as u32) < 0x80 && form_unchanged((s[i] as u32) as u8),
    ensures
        form_encode_bytes(encode_utf8(s)) == s,
    decreases s.len(),
{
    if s.len() > 0 {
        let v = s[0] as u32;
        assert(v & 0x7F == v) by (bit_vector)
            requires
                v < 0x80,
        ;
        let b = encode_utf8(s);
        assert(vstd::utf8::encode_scalar(v) == seq![v as u8]);
        lemma_form_encode_plain(s.drop_first());
        assert(b[0] == v as u8);
        assert(b.drop_first() =~= encode_utf8(s.drop_first()));
        vstd::utf8::char_u32_cast(s[0], v);
        assert(((v as u8) as u32) == v);
        assert(form_encode_bytes(b) =~= s);
    }
}

/// The body of the payload's request reads `Action=GetCallerIdentity&Version=2011-06-15`.
pub proof fn lemma_sts_query_text()
    ensures
        form_urlencoded(sts_query()) == "Action=GetCallerIdentity&Version=2011-06-15"@,
{
    reveal_strlit("Action");
    reveal_strlit("GetCallerIdentity");
    reveal_strlit("Version");
    reveal_strlit("2011-06-15");
    reveal_strlit("=");
    reveal_strlit("&");
    reveal_strlit("Action=GetCallerIdentity&Version=2011-06-15");
    lemma_form_encode_plain("Action"@);
    lemma_form_encode_plain("GetCallerIdentity"@);
    lemma_form_encode_plain("Version"@);
    lemma_form_encode_plain("2011-06-15"@);
    let q = sts_query();
    assert(q.drop_last() =~= seq![("Action"@, "GetCallerIdentity"@)]);
    reveal_with_fuel(form_urlencoded, 2);
    assert(form_urlencoded(q) =~= "Action=GetCallerIdentity&Version=2011-06-15"@);
}

/// The body of the STS `GetCallerIdentity` request that the payload signs.
pub open spec fn sts_body() -> Seq<char> {
    "Action=GetCallerIdentity&Version=2011-06-15"@
}

/// The URL of the STS endpoint of `region`, as a request to it is sent.
pub open spec fn sts_url(region: Region) -> Seq<char> {
    region_scheme(region) + "://"@ + region_hostname("sts"@, region) + region_path("/"@, region)
}

/// Whether `request` is sent to the STS endpoint of `region`: its scheme, host and path.
pub open spec fn sent_to_sts(request: SignedRequest, region: Region) -> bool {
    &&& signed_scheme(request) == region_scheme(region)
    &&& signed_hostname(request) == region_hostname("sts"@, region)
    &&& signed_path(request) == region_path("/"@, region)
}

/// Whether the payload `p` is that of `request`, a POST of the STS body signed with the
/// access key id `key`, whose headers `raw` lists: the base64 of its URL and body, its
/// headers read as text, among them its host header and its authorization.
pub open spec fn payload_of_request(
    p: IamPayloadView,
    request: SignedRequest,
    raw: Seq<(Seq<char>, Seq<Seq<u8>>)>,
    key: Seq<char>,
) -> bool {
    &&& signed_method(request) == "POST"@
    &&& signed_payload(request) == Some(encode_utf8(sts_body()))
    &&& carries_signature(signed_headers(request), signed_hostname(request), key)
    &&& lists_headers(raw, signed_headers(request))
    &&& p == payload_of_parts(
        signed_scheme(request),
        signed_hostname(request),
        signed_path(request),
        encode_utf8(sts_body()),
        raw,
    )
    &&& exists|i: int| 0 <= i < p.headers.len() && #[trigger] p.headers[i] == ("host"@, seq![signed_hostname(request)])
    &&& exists|i: int| 0 <= i < p.headers.len() && (#[trigger] p.headers[i]).0 == "authorization"@
        && p.headers[i].1.len() == 1 && sigv4_authorization(p.headers[i].1[0], key, signed_headers(request))
}

/// The texts of the payload made of a signed request's parts.
pub open spec fn payload_of_parts(
    scheme: Seq<char>,
    hostname: Seq<char>,
    path: Seq<char>,
    body: Seq<u8>,
    headers: Seq<(Seq<char>, Seq<Seq<u8>>)>,
) -> IamPayloadView {
    IamPayloadView {
        method: "POST"@,
        url: base64_standard(encode_utf8(scheme + "://"@ + hostname + path)),
        body: base64_standard(body),
        headers: decoded_headers(headers),
    }
}

/// The texts of the values of raw header values.
fn decode_values(values: &Vec<Vec<u8>>) -> (r: Vec<String>)
    ensures
        strings_view(r@) == values@.map_values(|v: Vec<u8>| v@).map_values(|v: Seq<u8>| utf8_lossy(v)),
        forall|k: int| 0 <= k < values@.len() && valid_utf8(values@[k]@)
            ==> (#[trigger] r@[k])@ == decode_utf8(values@[k]@),
{
    let mut r: Vec<String> = Vec::new();
    let mut i: usize = 0;
    while i < values.len()
        invariant
            i <= values.len(),
            r@.len() == i,
            forall|k: int| 0 <= k < i ==> (#[trigger] r@[k])@ == utf8_lossy(values@[k]@),
            forall|k: int| 0 <= k < i && valid_utf8(values@[k]@) ==> (#[trigger] r@[k])@ == decode_utf8(values@[k]@),
        decreases values.len() - i,
    {
        r.push(bytes_to_text(values[i].as_slice()));
        i = i + 1;
    }
    assert(strings_view(r@) =~= values@.map_values(|v: Vec<u8>| v@).map_values(|v: Seq<u8>| utf8_lossy(v)));
    r
}

/// The server-ID header, made lowercase as a signed request keeps its names, is neither
/// `content-type` nor a header that signing sets; nor is `content-type`.
proof fn lemma_server_id_header_name()
    ensures
        !is_signing_header(ascii_lowercase(IAM_SERVER_ID_HEADER@)),
        !is_signing_header("content-type"@),
        ascii_lowercase(IAM_SERVER_ID_HEADER@) != "content-type"@,
{
    reveal_strlit("X-Vault-AWS-IAM-Server-ID");
    reveal_strlit("content-type");
    reveal_strlit("host");
    reveal_strlit("content-length");
    reveal_strlit("x-amz-date");
    reveal_strlit("x-amz-security-token");
    reveal_strlit("x-amz-content-sha256");
    reveal_strlit("authorization");
    assert(ascii_lowercase(IAM_SERVER_ID_HEADER@).len() == 25);
    assert("content-type"@.len() == 12);
}

impl VaultAwsAuthIamPayload {
    /// The payload made of the parts of a signed request: the method "POST", the base64 of
    /// the URL `{scheme}://{hostname}{path}`, the base64 of the body, and the headers with
    /// their values read as text.
    pub fn from_signed_request_parts(
        scheme: &str,
        hostname: &str,
        path: &str,
        body: &[u8],
        headers: Vec<(String, Vec<Vec<u8>>)>,
    ) -> (r: Self)
        ensures
            r@ == payload_of_parts(scheme@, hostname@, path@, body@, raw_headers_view(headers@)),
            forall|i: int, k: int| 0 <= i < headers@.len() && 0 <= k < headers@[i].1@.len()
                && valid_utf8(headers@[i].1@[k]@)
                ==> #[trigger] r@.headers[i].1[k] == decode_utf8(headers@[i].1@[k]@),
    {
        let mut uri = scheme.to_owned();
        uri.append("://");
        uri.append(hostname);
        uri.append(path);
        let iam_request_url = base64_encode(uri.as_str().as_bytes());
        let iam_request_body = base64_encode(body);
        let mut converted: Vec<(String, Vec<String>)> = Vec::new();
        let mut i: usize = 0;
        while i < headers.len()
            invariant
                i <= headers.len(),
                converted@.len() == i,
                forall|k: int| 0 <= k < i ==> (#[trigger] converted@[k]).0@ == headers@[k].0@
                    && strings_view(converted@[k].1@)
                        == headers@[k].1@.map_values(|v: Vec<u8>| v@).map_values(|v: Seq<u8>| utf8_lossy(v)),
                forall|k: int, j: int| 0 <= k < i && 0 <= j < headers@[k].1@.len() && valid_utf8(headers@[k].1@[j]@)
                    ==> (#[trigger] converted@[k].1@[j])@ == decode_utf8(headers@[k].1@[j]@),
            decreases headers.len() - i,
        {
            let (name, values) = &headers[i];
            converted.push((name.clone(), decode_values(values)));
            i = i + 1;
        }
        let r = VaultAwsAuthIamPayload {
            iam_http_request_method: String::from_str("POST"),
            iam_request_url,
            iam_request_body,
            iam_request_headers: converted,
        };
        assert(headers_view(r.iam_request_headers@) =~= decoded_headers(raw_headers_view(headers@)));
        r
    }

    /// Create a payload for use with Vault AWS Authentication using the IAM method: an STS
    /// `GetCallerIdentity` request (a POST of `/` with the body
    /// `Action=GetCallerIdentity&Version=2011-06-15`, content type
    /// `application/x-www-form-urlencoded`), signed with the credentials for the region
    /// (the default region when none is given).
    ///
    /// If the Vault AWS Authentication method has the `iam_server_id_header_value`
    /// configured, you *must* provide the configured value in the `header_value` parameter:
    /// it is sent, and signed, in the `X-Vault-AWS-IAM-Server-ID` header.
    pub fn new(credentials: &AwsCredentials, header_value: Option<&str>, region: Option<Region>) -> (r: Self)
        ensures
            exists|request: SignedRequest, raw: Seq<(Seq<char>, Seq<Seq<u8>>)>, used: Region|
                #![trigger payload_of_request(r@, request, raw, access_key_id(*credentials)), sent_to_sts(request, used)]
            {
                &&& payload_of_request(r@, request, raw, access_key_id(*credentials))
                &&& sent_to_sts(request, used)
                &&& (region matches Some(g) ==> used == g)
                &&& (header_value is Some
                    ==> signed_headers(request).dom().contains(ascii_lowercase(IAM_SERVER_ID_HEADER@)))
            },
            region matches Some(g) ==> r@.url == base64_standard(encode_utf8(sts_url(g))),
            r@.method == "POST"@,
            r@.body == base64_standard(encode_utf8(sts_body())),
            distinct_names(r@.headers),
            exists|i: int| 0 <= i < r@.headers.len()
                && r@.headers[i] == ("content-type"@, seq!["application/x-www-form-urlencoded"@]),
            match header_value {
                Some(v) => exists|i: int| 0 <= i < r@.headers.len()
                    && r@.headers[i] == (ascii_lowercase(IAM_SERVER_ID_HEADER@), seq![v@]),
                None => forall|i: int| 0 <= i < r@.headers.len()
                    ==> r@.headers[i].0 != ascii_lowercase(IAM_SERVER_ID_HEADER@),
            },
    {
        let ghost given = region;
        let region = match region {
            Some(region) => region,
            None => default_region(),
        };
        let ghost used = region;

        let mut request = signed_request_new("POST", "sts", &region, "/");
        let mut params: Vec<(String, String)> = Vec::new();
        params.push((String::from_str("Action"), String::from_str("GetCallerIdentity")));
        params.push((String::from_str("Version"), String::from_str("2011-06-15")));
        assert(pairs_view(params@) =~= sts_query());
        let body = match form_urlencode(&params) {
            Ok(b) => b,
            Err(_) => {
                assert(false);
                String::new()
            },
        };
        proof {
            lemma_sts_query_text();
        }
        let body_bytes = vstd::slice::slice_to_vec(body.as_str().as_bytes());
        signed_request_set_payload(&mut request, body_bytes);
        let content_type = String::from_str("application/x-www-form-urlencoded");
        let ghost ct = content_type@;
        signed_request_set_content_type(&mut request, content_type);
        let ghost sid = ascii_lowercase(IAM_SERVER_ID_HEADER@);
        let ghost unsigned = signed_headers(request);
        proof {
            lemma_server_id_header_name();
            assert(unsigned.dom() =~= set!["content-type"@]);
            vstd::utf8::encode_utf8_valid_utf8(ct);
            vstd::utf8::encode_utf8_decode_utf8(ct);
        }

        match header_value {
            Some(value) => signed_request_add_header(&mut request, IAM_SERVER_ID_HEADER, value),
            None => {},
        }
        let ghost before_signing = signed_headers(request);
        proof {
            assert forall|k: Seq<char>, j: int|
                #[trigger] before_signing.dom().contains(k) && !is_unsigned_header(k) && 0 <= j < before_signing[k].len()
                implies valid_utf8(#[trigger] before_signing[k][j]) by {
                if k != "content-type"@ {
                    let v = header_value->Some_0;
                    vstd::utf8::encode_utf8_valid_utf8(v@);
                }
            }
        }

        signed_request_sign(&mut request, credentials);
        let ghost signed = signed_headers(request);

        let scheme = signed_request_scheme(&request);
        let hostname = signed_request_hostname(&request);
        let path = signed_request_canonical_path(&request);
        let headers = signed_request_headers(&request);
        let ghost raw = raw_headers_view(headers@);
        let r = Self::from_signed_request_parts(
            scheme.as_str(),
            hostname.as_str(),
            path.as_str(),
            body.as_str().as_bytes(),
            headers,
        );
        proof {
            let key = access_key_id(*credentials);
            assert(lists_headers(raw, signed));
            assert(carries_signature(signed, signed_hostname(request), key));
            let h = choose|i: int| 0 <= i < headers@.len() && (#[trigger] raw_headers_view(headers@)[i]).0 == "host"@;
            assert(raw[h].1 == seq![encode_utf8(hostname@)]);
            vstd::utf8::encode_utf8_valid_utf8(hostname@);
            vstd::utf8::encode_utf8_decode_utf8(hostname@);
            assert(r@.headers[h].1[0] == hostname@);
            assert(r@.headers[h].1 =~= seq![hostname@]);
            assert(r@.headers[h] == ("host"@, seq![signed_hostname(request)]));
            let a = choose|a: Seq<char>| signed["authorization"@][0] == encode_utf8(a) && #[trigger] sigv4_authorization(a, key, signed);
            let ai = choose|i: int| 0 <= i < headers@.len() && (#[trigger] raw_headers_view(headers@)[i]).0 == "authorization"@;
            assert(raw[ai].1 == signed["authorization"@]);
            assert(raw[ai].1[0] == encode_utf8(a));
            vstd::utf8::encode_utf8_valid_utf8(a);
            vstd::utf8::encode_utf8_decode_utf8(a);
            assert(r@.headers[ai].1[0] == a);
            assert(r@.headers[ai].0 == "authorization"@ && r@.headers[ai].1.len() == 1);
            assert(payload_of_request(r@, request, raw, key));
            assert(before_signing.dom().contains("content-type"@));
            assert(before_signing["content-type"@] == seq![encode_utf8(ct)]);
            assert(signed.dom().contains("content-type"@));
            let c = choose|i: int| 0 <= i < headers@.len() && (#[trigger] raw_headers_view(headers@)[i]).0 == "content-type"@;
            assert(raw[c].1 == seq![encode_utf8(ct)]);
            assert(r@.headers[c].1[0] == ct);
            assert(r@.headers[c].1 =~= seq![ct]);
            match header_value {
                Some(v) => {
                    assert(before_signing.dom().contains(sid));
                    assert(signed.dom().contains(sid));
                    let k = choose|i: int| 0 <= i < headers@.len() && (#[trigger] raw_headers_view(headers@)[i]).0 == sid;
                    assert(raw[k].1 == seq![encode_utf8(v@)]);
                    vstd::utf8::encode_utf8_valid_utf8(v@);
                    vstd::utf8::encode_utf8_decode_utf8(v@);
                    assert(r@.headers[k].1[0] == v@);
                    assert(r@.headers[k].1 =~= seq![v@]);
                },
                None => {
                    assert forall|i: int| 0 <= i < r@.headers.len() implies r@.headers[i].0 != sid by {
                        assert(r@.headers[i].0 == raw[i].0);
                        assert(signed.dom().contains(raw[i].0));
                    }
                },
            }
            assert(sent_to_sts(request, used));
            match given {
                Some(g) => {
                    assert(sts_url(g) == scheme@ + "://"@ + hostname@ + path@);
                },
                None => {},
            }
        }
        r
    }
}

} // verus!
