//! Dynamic secrets: the time-scoped, salted signatures that requests carry in
//! their `ds` header.
//!
//! A secret is the text `t,r,hash`: the time of signing in seconds, a random
//! tag, and the MD5 digest, in hexadecimal, of a payload that binds the salt,
//! `t`, `r` and, for the stronger variant, the request's body and query.

use vstd::prelude::*;
use vstd::string::StringExecFns;
use vstd::utf8::encode_utf8;
use rand::distributions::{Alphanumeric, DistString};
use rand::Rng;
use crate::utils::common::Region;
use crate::utils::constants::{DsSalt, Lang};
use crate::utils::text::{
    decimal, hex_lower, is_alphanumeric, is_digit, is_lower_hex, joined_pairs,
    lemma_decimal_chars, lemma_hex_lower_shape, lemma_six_digits, lemma_split_adds_field,
    lemma_split_of_one_field, natural_digits, pairs_of, push_decimal, push_hex_lower,
    push_joined_pairs, push_natural, split,
};

verus! {

/// The MD5 digest of a sequence of bytes, as the `md5` crate computes it.
pub uninterp spec fn md5_digest(bytes: Seq<u8>) -> Seq<u8>;

/// `md5::compute`: the sixteen bytes of the digest, which depend on the
/// bytes given alone.
#[verifier::external_body]
fn md5_of(bytes: &[u8]) -> (d: Vec<u8>)
    ensures
        d@ == md5_digest(bytes@),
        d@.len() == 16,
{
    md5::compute(bytes).0.to_vec()
}

/// The hash field of a secret: the MD5 digest of the payload's UTF-8 bytes,
/// in lower-case hexadecimal.
pub open spec fn payload_hash(payload: Seq<char>) -> Seq<char> {
    hex_lower(md5_digest(encode_utf8(payload)))
}

/// `chrono::Utc::now` and `DateTime::timestamp`: the seconds since the Unix
/// epoch on the system clock. Nothing is promised of the number; chrono stops
/// the program if the clock stands before the epoch.
#[verifier::external_body]
fn unix_time_now() -> i64 {
    chrono::Utc::now().timestamp()
}

/// `Alphanumeric.sample_string` of `rand` on the thread's generator: `len`
/// characters, each an ASCII letter or digit.
#[verifier::external_body]
fn random_alphanumeric(len: usize) -> (r: String)
    ensures
        r@.len() == len,
        forall|i: int| 0 <= i < r@.len() ==> is_alphanumeric(#[trigger] r@[i]),
{
    Alphanumeric.sample_string(&mut rand::thread_rng(), len)
}

/// `Rng::gen_range` of `rand` on the thread's generator, over the inclusive
/// range from `low` to `high`: a number in that range. `gen_range` panics on
/// an empty range, which `low <= high` rules out.
#[verifier::external_body]
fn random_in_range(low: u32, high: u32) -> (r: u32)
    requires
        low <= high,
    ensures
        low <= r <= high,
{
    rand::thread_rng().gen_range(low..=high)
}

/// The payload of the plain variant: salt, time and tag.
pub open spec fn bare_payload(salt: Seq<char>, t: int, r: Seq<char>) -> Seq<char> {
    "salt="@ + salt + "&t="@ + decimal(t) + "&r="@ + r
}

/// The payload of the variant that also binds the request's body and query.
pub open spec fn bound_payload(
    salt: Seq<char>,
    t: int,
    r: Seq<char>,
    body: Seq<char>,
    query: Seq<char>,
) -> Seq<char> {
    bare_payload(salt, t, r) + "&b="@ + body + "&q="@ + query
}

/// The secret for a time, a tag and a payload: `t,r,hash`.
pub open spec fn secret_text(t: int, r: Seq<char>, payload: Seq<char>) -> Seq<char> {
    (decimal(t).push(',') + r).push(',') + payload_hash(payload)
}

/// Whether a text is a tag of six ASCII letters and digits.
pub open spec fn is_alphanumeric_tag(r: Seq<char>) -> bool {
    r.len() == 6 && forall|i: int| 0 <= i < r.len() ==> is_alphanumeric(#[trigger] r[i])
}

/// Whether a text is a hash as secrets carry it: 32 lower-case hexadecimal digits.
pub open spec fn is_hash(h: Seq<char>) -> bool {
    h.len() == 32 && forall|i: int| 0 <= i < h.len() ==> is_lower_hex(#[trigger] h[i])
}

/// Whether `s` is the well-formed secret for time `t`, tag `r` and a
/// payload: it is `t,r,hash`, it parses as exactly these three
/// comma-separated fields, and the hash is the 32 hexadecimal digits of the
/// payload's digest.
pub open spec fn is_secret_for(s: Seq<char>, t: int, r: Seq<char>, payload: Seq<char>) -> bool {
    &&& s == secret_text(t, r, payload)
    &&& split(s, ',') == seq![decimal(t), r, payload_hash(payload)]
    &&& is_hash(payload_hash(payload))
}

/// Whether `s` is the plain secret under `salt` for time `t` and tag `r`.
pub open spec fn is_bare_secret(s: Seq<char>, salt: Seq<char>, t: int, r: Seq<char>) -> bool {
    &&& is_alphanumeric_tag(r)
    &&& is_secret_for(s, t, r, bare_payload(salt, t, r))
}

/// Whether `s` is a plain secret under a salt, for some time and some tag.
pub open spec fn is_secret_under(s: Seq<char>, salt: DsSalt) -> bool {
    exists|t: int, r: Seq<char>| is_bare_secret(s, salt.secret(), t, r)
}

/// Whether `s` is the secret under `salt` for time `t` and the numeric tag
/// `n` of six digits that binds `body` and `query`.
pub open spec fn is_bound_secret(
    s: Seq<char>,
    salt: Seq<char>,
    t: int,
    n: int,
    body: Seq<char>,
    query: Seq<char>,
) -> bool {
    &&& 100000 <= n <= 200000
    &&& decimal(n).len() == 6
    &&& is_secret_for(s, t, decimal(n), bound_payload(salt, t, decimal(n), body, query))
}

/// Whether `s` is the passport secret for time `t` and tag `r`: the variant
/// that binds `body` and an empty query under an alphanumeric tag.
pub open spec fn is_passport_secret(s: Seq<char>, t: int, r: Seq<char>, body: Seq<char>) -> bool {
    &&& is_alphanumeric_tag(r)
    &&& is_secret_for(
        s,
        t,
        r,
        bound_payload(DsSalt::CnPassport.secret(), t, r, body, Seq::empty()),
    )
}

/// A secret parses as exactly three comma-separated fields: the decimal time,
/// the tag and the hash; the hash is the lower-case hexadecimal form of the
/// MD5 digest of the payload, two characters for each byte of the digest.
pub proof fn lemma_secret_has_three_fields(t: int, r: Seq<char>, payload: Seq<char>)
    requires
        !r.contains(','),
    ensures
        split(secret_text(t, r, payload), ',') == seq![decimal(t), r, payload_hash(payload)],
        payload_hash(payload).len() == 2 * md5_digest(encode_utf8(payload)).len(),
        forall|i: int|
            0 <= i < payload_hash(payload).len() ==> is_lower_hex(
                #[trigger] payload_hash(payload)[i],
            ),
{
    let time = decimal(t);
    let hash = payload_hash(payload);
    lemma_decimal_chars(t);
    lemma_hex_lower_shape(md5_digest(encode_utf8(payload)));
    assert(!time.contains(',')) by {
        if time.contains(',') {
            let i = choose|i: int| 0 <= i < time.len() && time[i] == ',';
            assert(is_digit(time[i]) || time[i] == '-');
        }
    }
    assert(!hash.contains(',')) by {
        if hash.contains(',') {
            let i = choose|i: int| 0 <= i < hash.len() && hash[i] == ',';
            assert(is_lower_hex(hash[i]));
        }
    }
    lemma_split_of_one_field(time, ',');
    lemma_split_adds_field(time, r, ',');
    lemma_split_adds_field(time.push(',') + r, hash, ',');
    assert(seq![time].push(r).push(hash) == seq![time, r, hash]);
}

/// A tag of letters and digits holds no comma.
pub proof fn lemma_tag_holds_no_comma(r: Seq<char>)
    requires
        is_alphanumeric_tag(r),
    ensures
        !r.contains(','),
{
    if r.contains(',') {
        let i = choose|i: int| 0 <= i < r.len() && r[i] == ',';
        assert(is_alphanumeric(r[i]));
    }
}

/// The numeral of a numeric tag has six digits and holds no comma.
pub proof fn lemma_numeric_tag(n: int)
    requires
        100000 <= n <= 200000,
    ensures
        !decimal(n).contains(','),
        decimal(n).len() == 6,
{
    lemma_decimal_chars(n);
    lemma_six_digits(n as nat);
    if decimal(n).contains(',') {
        let i = choose|i: int| 0 <= i < decimal(n).len() && decimal(n)[i] == ',';
        assert(is_digit(decimal(n)[i]) || decimal(n)[i] == '-');
    }
}

/// Writes the head that both payloads share.
fn bare_payload_text(salt: &str, t: i64, r: &str) -> (p: String)
    ensures
        p@ == bare_payload(salt@, t as int, r@),
{
    let mut p = String::from_str("salt=");
    p.append(salt);
    p.append("&t=");
    push_decimal(&mut p, t);
    p.append("&r=");
    p.append(r);
    p
}

/// Signs a payload: writes `t,r,hash` for the payload's digest.
fn seal(t: i64, r: &str, payload: &str) -> (s: String)
    ensures
        s@ == secret_text(t as int, r@, payload@),
        is_hash(payload_hash(payload@)),
        !r@.contains(',') ==> is_secret_for(s@, t as int, r@, payload@),
{
    let digest = md5_of(payload.as_bytes());
    let mut s = String::new();
    push_decimal(&mut s, t);
    s.push(',');
    s.append(r);
    s.push(',');
    push_hex_lower(&mut s, &digest);
    proof {
        lemma_hex_lower_shape(digest@);
        assert(Seq::<char>::empty() + decimal(t as int) == decimal(t as int));
        if !r@.contains(',') {
            lemma_secret_has_three_fields(t as int, r@, payload@);
        }
    }
    s
}

/// The plain secret for a given time and tag. With a tag that holds no
/// comma the secret parses back into its three fields.
pub fn dynamic_secret_at(salt: &str, t: i64, r: &str) -> (s: String)
    ensures
        s@ == secret_text(t as int, r@, bare_payload(salt@, t as int, r@)),
        is_hash(payload_hash(bare_payload(salt@, t as int, r@))),
        !r@.contains(',') ==> is_secret_for(
            s@,
            t as int,
            r@,
            bare_payload(salt@, t as int, r@),
        ),
{
    let payload = bare_payload_text(salt, t, r);
    seal(t, r, payload.as_str())
}

/// The secret that binds a body and a query, for a given time and tag. With
/// a tag that holds no comma the secret parses back into its three fields.
pub fn bound_secret_at(salt: &str, t: i64, r: &str, body: &str, query: &str) -> (s: String)
    ensures
        s@ == secret_text(t as int, r@, bound_payload(salt@, t as int, r@, body@, query@)),
        is_hash(payload_hash(bound_payload(salt@, t as int, r@, body@, query@))),
        !r@.contains(',') ==> is_secret_for(
            s@,
            t as int,
            r@,
            bound_payload(salt@, t as int, r@, body@, query@),
        ),
{
    let mut payload = bare_payload_text(salt, t, r);
    payload.append("&b=");
    payload.append(body);
    payload.append("&q=");
    payload.append(query);
    seal(t, r, payload.as_str())
}

/// Signs with the current time and a fresh tag of six letters and digits.
pub fn generate_dynamic_secret(salt: DsSalt) -> (s: String)
    ensures
        is_secret_under(s@, salt),
{
    let t = unix_time_now();
    let r = random_alphanumeric(6);
    proof {
        lemma_tag_holds_no_comma(r@);
    }
    let s = dynamic_secret_at(salt.val(), t, r.as_str());
    assert(is_bare_secret(s@, salt.secret(), t as int, r@));
    s
}

/// Signs a body and a query with the current time and a fresh numeric tag.
/// The query is bound as `name=value` pairs joined with `&`, in the order given.
pub fn generate_cn_dynamic_secret(body: &str, query: &Vec<(String, String)>, salt: DsSalt) -> (s:
    String)
    ensures
        exists|t: int, n: int|
            100001 <= n && #[trigger] is_bound_secret(
                s@,
                salt.secret(),
                t,
                n,
                body@,
                joined_pairs(pairs_of(query@)),
            ),
{
    let t = unix_time_now();
    let n = random_in_range(100001, 200000);
    let mut r = String::new();
    push_natural(&mut r, n as u64);
    let mut q = String::new();
    push_joined_pairs(&mut q, query);
    proof {
        assert(Seq::<char>::empty() + natural_digits(n as nat) == decimal(n as int));
        assert(Seq::<char>::empty() + joined_pairs(pairs_of(query@)) == joined_pairs(
            pairs_of(query@),
        ));
        lemma_numeric_tag(n as int);
    }
    let s = bound_secret_at(salt.val(), t, r.as_str(), body, q.as_str());
    assert(100001 <= n as int && is_bound_secret(
        s@,
        salt.secret(),
        t as int,
        n as int,
        body@,
        joined_pairs(pairs_of(query@)),
    ));
    s
}

/// Signs a passport request's body with the current time and a fresh tag of
/// six letters and digits.
pub fn generate_passport_ds(body: &str) -> (s: String)
    ensures
        exists|t: int, r: Seq<char>| is_passport_secret(s@, t, r, body@),
{
    let t = unix_time_now();
    let r = random_alphanumeric(6);
    proof {
        lemma_tag_holds_no_comma(r@);
    }
    let s = bound_secret_at(DsSalt::CnPassport.val(), t, r.as_str(), body, "");
    proof {
        reveal_strlit("");
        assert(""@ == Seq::<char>::empty());
        assert(is_passport_secret(s@, t as int, r@, body@));
    }
    s
}

/// Signs a geetest request of a region with the current time and a fresh
/// numeric tag; such a request has no body and the query `is_high=false`.
pub fn generate_geetest_ds(region: Region) -> (s: String)
    ensures
        exists|t: int, n: int|
            is_bound_secret(
                s@,
                DsSalt::of_region(region).secret(),
                t,
                n,
                Seq::empty(),
                "is_high=false"@,
            ),
{
    let t = unix_time_now();
    let n = random_in_range(100000, 200000);
    let mut r = String::new();
    push_natural(&mut r, n as u64);
    proof {
        assert(Seq::<char>::empty() + natural_digits(n as nat) == decimal(n as int));
        lemma_numeric_tag(n as int);
    }
    let s = bound_secret_at(DsSalt::from(region).val(), t, r.as_str(), "", "is_high=false");
    proof {
        reveal_strlit("");
        assert(""@ == Seq::<char>::empty());
        assert(is_bound_secret(
            s@,
            DsSalt::of_region(region).secret(),
            t as int,
            n as int,
            Seq::empty(),
            "is_high=false"@,
        ));
    }
    s
}

/// Makes a header of a name and a value.
pub fn header(name: &str, value: &str) -> (h: (String, String))
    ensures
        h.0@ == name@,
        h.1@ == value@,
{
    (String::from_str(name), String::from_str(value))
}

/// The headers of an overseas community request in a language, signed.
pub fn get_headers(lang: Lang) -> (h: Vec<(String, String)>)
    ensures
        h@.len() == 5,
        h@[0].0@ == "x-rpc-app_version"@ && h@[0].1@ == "1.5.0"@,
        h@[1].0@ == "x-rpc-client_type"@ && h@[1].1@ == "5"@,
        h@[2].0@ == "x-rpc-language"@ && h@[2].1@ == lang.tag(),
        h@[3].0@ == "x-rpc-lang"@ && h@[3].1@ == lang.tag(),
        h@[4].0@ == "ds"@,
        is_secret_under(h@[4].1@, DsSalt::Overseas),
{
    let secret = generate_dynamic_secret(DsSalt::Overseas);
    let mut h: Vec<(String, String)> = Vec::new();
    h.push(header("x-rpc-app_version", "1.5.0"));
    h.push(header("x-rpc-client_type", "5"));
    h.push(header("x-rpc-language", lang.val()));
    h.push(header("x-rpc-lang", lang.val()));
    h.push(header("ds", secret.as_str()));
    h
}

/// The text of a body that may be absent.
pub open spec fn body_or_empty(data: Option<&str>) -> Seq<char> {
    match data {
        Some(d) => d@,
        None => Seq::empty(),
    }
}

/// The joined pairs of a query that may be absent.
pub open spec fn query_or_empty(query: Option<&Vec<(String, String)>>) -> Seq<char> {
    match query {
        Some(q) => joined_pairs(pairs_of(q@)),
        None => Seq::empty(),
    }
}

/// The headers of a Chinese community request, signed over its body and
/// query; an absent body counts as empty, an absent query as no pairs.
pub fn get_cn_headers(data: Option<&str>, query: Option<&Vec<(String, String)>>) -> (h: Vec<
    (String, String),
>)
    ensures
        h@.len() == 3,
        h@[0].0@ == "x-rpc-app_version"@ && h@[0].1@ == "2.11.1"@,
        h@[1].0@ == "x-rpc-client_type"@ && h@[1].1@ == "5"@,
        h@[2].0@ == "ds"@,
        exists|t: int, n: int|
            100001 <= n && #[trigger] is_bound_secret(
                h@[2].1@,
                DsSalt::Chinese.secret(),
                t,
                n,
                body_or_empty(data),
                query_or_empty(query),
            ),
{
    let empty: Vec<(String, String)> = Vec::new();
    let body = match data {
        Some(d) => d,
        None => "",
    };
    let secret = match query {
        Some(q) => generate_cn_dynamic_secret(body, q, DsSalt::Chinese),
        None => generate_cn_dynamic_secret(body, &empty, DsSalt::Chinese),
    };
    proof {
        reveal_strlit("");
        assert(""@ == Seq::<char>::empty());
        assert(pairs_of(empty@) =~= Seq::empty());
    }
    let mut h: Vec<(String, String)> = Vec::new();
    h.push(header("x-rpc-app_version", "2.11.1"));
    h.push(header("x-rpc-client_type", "5"));
    h.push(header("ds", secret.as_str()));
    proof {
        let (t, n) = choose|t: int, n: int|
            100001 <= n && #[trigger] is_bound_secret(
                secret@,
                DsSalt::Chinese.secret(),
                t,
                n,
                body@,
                query_or_empty(query),
            );
        assert(100001 <= n && is_bound_secret(
            h@[2].1@,
            DsSalt::Chinese.secret(),
            t,
            n,
            body_or_empty(data),
            query_or_empty(query),
        ));
    }
    h
}

} // verus!
