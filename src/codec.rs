use vstd::prelude::*;
use vstd::utf8::encode_utf8;

verus! {

/// The character that URL-safe base64 uses for a six-bit value.
pub open spec fn sextet_char(v: int) -> char {
    if 0 <= v < 26 {
        (('A' as int) + v) as char
    } else if 26 <= v < 52 {
        (('a' as int) + (v - 26)) as char
    } else if 52 <= v < 62 {
        (('0' as int) + (v - 52)) as char
    } else if v == 62 {
        '-'
    } else {
        '_'
    }
}

/// URL-safe base64 of a byte sequence, with `=` padding to a multiple of four.
pub open spec fn base64_url(b: Seq<u8>) -> Seq<char>
    decreases b.len(),
{
    if b.len() == 0 {
        seq![]
    } else {
        let x = b[0] as int;
        let y = if b.len() > 1 { b[1] as int } else { 0 };
        let z = if b.len() > 2 { b[2] as int } else { 0 };
        let c0 = sextet_char(x / 4);
        let c1 = sextet_char((x % 4) * 16 + y / 16);
        let c2 = sextet_char((y % 16) * 4 + z / 64);
        let c3 = sextet_char(z % 64);
        if b.len() == 1 {
            seq![c0, c1, '=', '=']
        } else if b.len() == 2 {
            seq![c0, c1, c2, '=']
        } else {
            seq![c0, c1, c2, c3] + base64_url(b.subrange(3, b.len() as int))
        }
    }
}

/// A character that may stand in an encoded segment: the URL-safe alphabet or padding.
pub open spec fn is_url_safe_char(c: char) -> bool {
    ('A' <= c <= 'Z') || ('a' <= c <= 'z') || ('0' <= c <= '9') || c == '-' || c == '_' || c
        == '='
}

/// The zlib stream (at the highest compression level) of a byte sequence.
pub uninterp spec fn zlib_best(data: Seq<u8>) -> Seq<u8>;

/// Drops every `/` at the end of a string.
pub open spec fn trim_trailing_slashes(s: Seq<char>) -> Seq<char>
    decreases s.len(),
{
    if s.len() > 0 && s.last() == '/' {
        trim_trailing_slashes(s.drop_last())
    } else {
        s
    }
}

/// `{base}/{kind}/svg/{payload in URL-safe base64}`, with the base's trailing slashes removed.
pub open spec fn diagram_url(base: Seq<char>, kind: Seq<char>, payload: Seq<u8>) -> Seq<char> {
    trim_trailing_slashes(base) + seq!['/'] + kind + seq!['/', 's', 'v', 'g', '/'] + base64_url(
        payload,
    )
}

/// Relies on flate2's `ZlibEncoder` with `Compression::best()`, writing into a `Vec`
/// (whose writes cannot fail): the result is the zlib stream of the input.
#[verifier::external_body]
fn compress_best(data: &[u8]) -> (r: Vec<u8>)
    ensures
        r@ == zlib_best(data@),
{
    let mut encoder = flate2::write::ZlibEncoder::new(Vec::new(), flate2::Compression::best());
    std::io::Write::write_all(&mut encoder, data).unwrap();
    encoder.finish().unwrap()
}

/// Relies on base64's `URL_SAFE` engine (URL-safe alphabet, padded): `Engine::encode`.
#[verifier::external_body]
fn encode_base64_url(data: &[u8]) -> (r: String)
    ensures
        r@ == base64_url(data@),
{
    base64::Engine::encode(&base64::engine::general_purpose::URL_SAFE, data)
}

/// The prefix of `s` without its trailing slashes.
pub fn trim_slashes(s: &str) -> (r: &str)
    ensures
        r@ == trim_trailing_slashes(s@),
{
    let mut n: usize = s.unicode_len();
    assert(s@.subrange(0, n as int) =~= s@);
    while n > 0 && s.get_char(n - 1) == '/'
        invariant
            n <= s@.len(),
            trim_trailing_slashes(s@) == trim_trailing_slashes(s@.subrange(0, n as int)),
        decreases n,
    {
        assert(s@.subrange(0, n as int).drop_last() =~= s@.subrange(0, n - 1));
        n = n - 1;
    }
    assert(s@.subrange(0, n as int) =~= trim_trailing_slashes(s@.subrange(0, n as int)));
    s.substring_char(0, n)
}

/// Builds the backend URL for an already compressed payload.
pub fn url_for_payload(base_url: &str, kind: &str, payload: &[u8]) -> (r: String)
    ensures
        r@ == diagram_url(base_url@, kind@, payload@),
{
    let encoded = encode_base64_url(payload);
    let mut out = String::from_str(trim_slashes(base_url));
    out.append("/");
    out.append(kind);
    out.append("/svg/");
    out.append(encoded.as_str());
    proof {
        reveal_strlit("/");
        reveal_strlit("/svg/");
    }
    out
}

/// The backend URL of a diagram: its source compressed at the highest level, in
/// URL-safe base64, after `{base}/{kind}/svg/`.
pub fn generate_url(base_url: &str, kroki_type: &str, source: &str) -> (r: String)
    ensures
        r@ == diagram_url(base_url@, kroki_type@, zlib_best(encode_utf8(source@))),
{
    let compressed = compress_best(source.as_bytes());
    url_for_payload(base_url, kroki_type, compressed.as_slice())
}

/// Every six-bit value is written with a character of the URL-safe alphabet.
pub proof fn lemma_sextet_char_url_safe(v: int)
    requires
        0 <= v < 64,
    ensures
        is_url_safe_char(sextet_char(v)),
        sextet_char(v) != '+',
        sextet_char(v) != '/',
        sextet_char(v) != '=',
{
}

/// The URL-safe base64 of any bytes holds only the URL-safe alphabet and `=` padding,
/// never `+` or `/`, and has four characters for each started group of three bytes.
pub proof fn lemma_base64_url_alphabet(b: Seq<u8>)
    ensures
        base64_url(b).len() == 4 * ((b.len() + 2) / 3),
        forall|i: int|
            0 <= i < base64_url(b).len() ==> is_url_safe_char(#[trigger] base64_url(b)[i])
                && base64_url(b)[i] != '+' && base64_url(b)[i] != '/',
    decreases b.len(),
{
    if b.len() > 0 {
        let x = b[0] as int;
        let y = if b.len() > 1 { b[1] as int } else { 0 };
        let z = if b.len() > 2 { b[2] as int } else { 0 };
        lemma_sextet_char_url_safe(x / 4);
        lemma_sextet_char_url_safe((x % 4) * 16 + y / 16);
        lemma_sextet_char_url_safe((y % 16) * 4 + z / 64);
        lemma_sextet_char_url_safe(z % 64);
        if b.len() > 2 {
            lemma_base64_url_alphabet(b.subrange(3, b.len() as int));
        }
    }
}

/// A backend URL is its prefix followed by the encoded payload, and that encoded
/// segment holds no `+` or `/`, only the URL-safe alphabet and `=` padding.
pub proof fn lemma_diagram_url_segment(base: Seq<char>, kind: Seq<char>, payload: Seq<u8>)
    ensures
        diagram_url(base, kind, payload) == trim_trailing_slashes(base) + seq!['/'] + kind
            + seq!['/', 's', 'v', 'g', '/'] + base64_url(payload),
        forall|i: int|
            0 <= i < base64_url(payload).len() ==> is_url_safe_char(
                #[trigger] base64_url(payload)[i],
            ) && base64_url(payload)[i] != '+' && base64_url(payload)[i] != '/',
{
    lemma_base64_url_alphabet(payload);
}

} // verus!
