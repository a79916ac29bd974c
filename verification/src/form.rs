//! Decoding of URL-form-encoded subscription bodies: `key=value` pairs
//! separated by `&`, with `+` standing for a space and `%XX` for the byte
//! `XX`. The decoder extracts the `email` and `name` fields a subscription
//! request must carry; anything else in the body is ignored, a malformed
//! escape, a repeated field or a field that is not valid UTF-8 rejects
//! the body.

use vstd::prelude::*;
use vstd::string::StrSliceExecFns;
use vstd::utf8::decode_utf8;
use vstd::utf8::encode_utf8;
use vstd::utf8::valid_utf8;

use crate::routes::FormData;

verus! {

/// Whether `b` is the ASCII code of a hexadecimal digit.
pub open spec fn is_hex_digit(b: u8) -> bool {
    (0x30 <= b && b <= 0x39) || (0x41 <= b && b <= 0x46) || (0x61 <= b && b <= 0x66)
}

/// The value of the hexadecimal digit with ASCII code `b`.
pub open spec fn hex_val(b: u8) -> u8 {
    if 0x30 <= b && b <= 0x39 {
        (b - 0x30) as u8
    } else if 0x41 <= b && b <= 0x46 {
        (b - 55) as u8
    } else {
        (b - 87) as u8
    }
}

/// Percent-decode one form component: `+` becomes a space, `%XX` with two
/// hexadecimal digits becomes the byte `XX`, any other byte stands for
/// itself; a `%` not followed by two hexadecimal digits makes the
/// component undecodable.
pub open spec fn pct_decode(s: Seq<u8>) -> Option<Seq<u8>>
    decreases s.len(),
{
    if s.len() == 0 {
        Some(Seq::<u8>::empty())
    } else if s[0] == 37 {
        if s.len() >= 3 && is_hex_digit(s[1]) && is_hex_digit(s[2]) {
            match pct_decode(s.skip(3)) {
                Some(rest) => Some(
                    seq![((hex_val(s[1]) as int * 16 + hex_val(s[2]) as int) as u8)] + rest,
                ),
                None => None,
            }
        } else {
            None
        }
    } else if s[0] == 43 {
        match pct_decode(s.skip(1)) {
            Some(rest) => Some(seq![32u8] + rest),
            None => None,
        }
    } else {
        match pct_decode(s.skip(1)) {
            Some(rest) => Some(seq![s[0]] + rest),
            None => None,
        }
    }
}

/// The raw key of a component: what stands before its first `=`, or the
/// whole component when it has none.
pub open spec fn key_of(c: Seq<u8>) -> Seq<u8>
    decreases c.len(),
{
    if c.len() == 0 {
        Seq::<u8>::empty()
    } else if c[0] == 61 {
        Seq::<u8>::empty()
    } else {
        seq![c[0]] + key_of(c.skip(1))
    }
}

/// The raw value of a component: what stands after its first `=`, or
/// nothing when it has none.
pub open spec fn val_of(c: Seq<u8>) -> Seq<u8>
    decreases c.len(),
{
    if c.len() == 0 {
        Seq::<u8>::empty()
    } else if c[0] == 61 {
        c.skip(1)
    } else {
        val_of(c.skip(1))
    }
}

/// The position of the first occurrence of `b` in `s`, or `s.len()` when
/// `s` does not contain it.
pub open spec fn first_index(s: Seq<u8>, b: u8) -> nat
    decreases s.len(),
{
    if s.len() == 0 {
        0
    } else if s[0] == b {
        0
    } else {
        1 + first_index(s.skip(1), b)
    }
}

/// The ASCII bytes of the field name `email`.
pub open spec fn email_key() -> Seq<u8> {
    seq![101u8, 109u8, 97u8, 105u8, 108u8]
}

/// The ASCII bytes of the field name `name`.
pub open spec fn name_key() -> Seq<u8> {
    seq![110u8, 97u8, 109u8, 101u8]
}

/// The percent-decoded key and value of one component, if both decode.
pub open spec fn decode_component(c: Seq<u8>) -> Option<(Seq<u8>, Seq<u8>)> {
    match (pct_decode(key_of(c)), pct_decode(val_of(c))) {
        (Some(k), Some(v)) => Some((k, v)),
        _ => None,
    }
}

/// Fold one decoded component into the fields gathered from the rest of
/// the body: an `email` or `name` key fills its slot, and refills — a
/// repeated field — or an undecodable component reject the whole body.
pub open spec fn combine(
    comp: Option<(Seq<u8>, Seq<u8>)>,
    rest: Option<(Option<Seq<u8>>, Option<Seq<u8>>)>,
) -> Option<(Option<Seq<u8>>, Option<Seq<u8>>)> {
    match comp {
        None => None,
        Some(kv) => match rest {
            None => None,
            Some(r) => {
                if kv.0 == email_key() {
                    if r.0 is Some {
                        None
                    } else {
                        Some((Some(kv.1), r.1))
                    }
                } else if kv.0 == name_key() {
                    if r.1 is Some {
                        None
                    } else {
                        Some((r.0, Some(kv.1)))
                    }
                } else {
                    Some(r)
                }
            },
        },
    }
}

/// Scan the whole body, component by component: the decoded `email` and
/// `name` fields it carries, or nothing when some component is malformed
/// or a field repeats.
pub open spec fn scan_form(s: Seq<u8>) -> Option<(Option<Seq<u8>>, Option<Seq<u8>>)>
    decreases s.len(),
{
    let j: nat = first_index(s, 38);
    if j >= s.len() {
        combine(decode_component(s), Some((None, None)))
    } else {
        combine(decode_component(s.take(j as int)), scan_form(s.skip(j as int + 1)))
    }
}

/// What a raw body yields: the `email` and `name` strings, present when
/// the body decodes, carries each field exactly once, and both fields are
/// valid UTF-8.
pub open spec fn form_data_of(bytes: Seq<u8>) -> Option<(Seq<char>, Seq<char>)> {
    match scan_form(bytes) {
        Some(fields) => match (fields.0, fields.1) {
            (Some(e), Some(n)) => if valid_utf8(e) && valid_utf8(n) {
                Some((decode_utf8(e), decode_utf8(n)))
            } else {
                None
            },
            _ => None,
        },
        None => None,
    }
}

proof fn lemma_first_index_props(s: Seq<u8>, b: u8)
    ensures
        first_index(s, b) <= s.len(),
        forall|k: int| 0 <= k < first_index(s, b) ==> s[k] != b,
        first_index(s, b) < s.len() ==> s[first_index(s, b) as int] == b,
    decreases s.len(),
{
    if s.len() == 0 {
    } else if s[0] == b {
    } else {
        lemma_first_index_props(s.skip(1), b);
        let fi: nat = first_index(s, b);
        assert(fi == 1 + first_index(s.skip(1), b));
        assert forall|k: int| 0 <= k < fi implies s[k] != b by {
            if k > 0 {
                assert(s.skip(1)[k - 1] == s[k]);
            }
        }
        if fi < s.len() {
            assert(s.skip(1)[fi - 1] == s[fi as int]);
        }
    }
}

proof fn lemma_kv_split(c: Seq<u8>, m: int)
    requires
        0 <= m <= c.len(),
        forall|k: int| 0 <= k < m ==> c[k] != 61,
        m < c.len() ==> c[m] == 61,
    ensures
        key_of(c) == c.take(m),
        val_of(c) == (if m == c.len() {
            Seq::<u8>::empty()
        } else {
            c.skip(m + 1)
        }),
    decreases c.len(),
{
    if m == 0 {
        if c.len() == 0 {
            assert(key_of(c) =~= c.take(0));
        } else {
            assert(c[0] == 61);
            assert(key_of(c) =~= c.take(0));
        }
    } else {
        assert(c[0] != 61);
        assert forall|k: int| 0 <= k < m - 1 implies c.skip(1)[k] != 61 by {
            assert(c.skip(1)[k] == c[k + 1]);
        }
        assert(m - 1 < c.skip(1).len() ==> c.skip(1)[m - 1] == 61);
        lemma_kv_split(c.skip(1), m - 1);
        assert(key_of(c) == seq![c[0]] + c.skip(1).take(m - 1));
        assert(seq![c[0]] + c.skip(1).take(m - 1) =~= c.take(m));
        if m == c.len() {
        } else {
            assert(c.skip(1).skip(m) =~= c.skip(m + 1));
        }
    }
}

fn find_byte(v: &Vec<u8>, from: usize, to: usize, b: u8) -> (r: usize)
    requires
        from <= to,
        to <= v@.len(),
    ensures
        from <= r <= to,
        forall|k: int| from <= k < r ==> v@[k] != b,
        r < to ==> v@[r as int] == b,
{
    let mut i: usize = from;
    while i < to
        invariant
            from <= i <= to,
            to <= v@.len(),
            forall|k: int| from <= k < i ==> v@[k] != b,
        decreases to - i,
    {
        if v[i] == b {
            return i;
        }
        i += 1;
    }
    i
}

fn hex_digit_val(b: u8) -> (r: Option<u8>)
    ensures
        r is Some <==> is_hex_digit(b),
        r matches Some(h) ==> h == hex_val(b) && h <= 15,
{
    if 0x30 <= b && b <= 0x39 {
        Some(b - 0x30)
    } else if 0x41 <= b && b <= 0x46 {
        Some(b - 55)
    } else if 0x61 <= b && b <= 0x66 {
        Some(b - 87)
    } else {
        None
    }
}

fn pct_decode_range(v: &Vec<u8>, a: usize, b: usize) -> (r: Option<Vec<u8>>)
    requires
        a <= b,
        b <= v@.len(),
    ensures
        r is Some <==> pct_decode(v@.subrange(a as int, b as int)) is Some,
        r matches Some(out) ==> Some(out@) == pct_decode(v@.subrange(a as int, b as int)),
    decreases b - a,
{
    let ghost s = v@.subrange(a as int, b as int);
    if a == b {
        return Some(Vec::new());
    }
    let byte = v[a];
    assert(s[0] == byte);
    if byte == 37 {
        if b - a >= 3 {
            let d1 = hex_digit_val(v[a + 1]);
            let d2 = hex_digit_val(v[a + 2]);
            assert(s[1] == v@[a + 1] && s[2] == v@[a + 2]);
            match (d1, d2) {
                (Some(h1), Some(h2)) => {
                    let decoded: u8 = h1 * 16 + h2;
                    proof {
                        assert(s.skip(3) =~= v@.subrange(a as int + 3, b as int));
                    }
                    match pct_decode_range(v, a + 3, b) {
                        Some(mut rest) => {
                            rest.insert(0, decoded);
                            proof {
                                assert(rest@ =~= seq![decoded] + rest@.skip(1));
                            }
                            Some(rest)
                        },
                        None => None,
                    }
                },
                _ => None,
            }
        } else {
            None
        }
    } else {
        let decoded: u8 = if byte == 43 {
            32
        } else {
            byte
        };
        proof {
            assert(s.skip(1) =~= v@.subrange(a as int + 1, b as int));
        }
        match pct_decode_range(v, a + 1, b) {
            Some(mut rest) => {
                rest.insert(0, decoded);
                proof {
                    assert(rest@ =~= seq![decoded] + rest@.skip(1));
                }
                Some(rest)
            },
            None => None,
        }
    }
}

/// The decoded key and value of the component at `v[a..b]`, mirroring
/// [`decode_component`].
spec fn comp_view(r: Option<(Vec<u8>, Vec<u8>)>) -> Option<(Seq<u8>, Seq<u8>)> {
    match r {
        Some(p) => Some((p.0@, p.1@)),
        None => None,
    }
}

fn decode_component_range(v: &Vec<u8>, a: usize, b: usize) -> (r: Option<(Vec<u8>, Vec<u8>)>)
    requires
        a <= b,
        b <= v@.len(),
    ensures
        comp_view(r) == decode_component(v@.subrange(a as int, b as int)),
{
    let ghost c = v@.subrange(a as int, b as int);
    let m = find_byte(v, a, b, 61);
    proof {
        assert forall|k: int| 0 <= k < m - a implies c[k] != 61 by {
            assert(c[k] == v@[a + k]);
        }
        assert(m - a < c.len() ==> c[m - a] == 61);
        lemma_kv_split(c, m - a);
        assert(c.take(m - a) =~= v@.subrange(a as int, m as int));
        if m < b {
            assert(c.skip(m - a + 1) =~= v@.subrange(m as int + 1, b as int));
        }
    }
    let key = pct_decode_range(v, a, m);
    let value = if m == b {
        pct_decode_range(v, b, b)
    } else {
        pct_decode_range(v, m + 1, b)
    };
    proof {
        if m == b {
            assert(v@.subrange(b as int, b as int) =~= Seq::<u8>::empty());
        }
    }
    match (key, value) {
        (Some(k), Some(val)) => Some((k, val)),
        _ => None,
    }
}

fn is_email_key(k: &Vec<u8>) -> (r: bool)
    ensures
        r == (k@ == email_key()),
{
    let r = k.len() == 5 && k[0] == 101 && k[1] == 109 && k[2] == 97 && k[3] == 105 && k[4] == 108;
    proof {
        if r {
            assert(k@ =~= email_key());
        }
    }
    r
}

fn is_name_key(k: &Vec<u8>) -> (r: bool)
    ensures
        r == (k@ == name_key()),
{
    let r = k.len() == 4 && k[0] == 110 && k[1] == 97 && k[2] == 109 && k[3] == 101;
    proof {
        if r {
            assert(k@ =~= name_key());
        }
    }
    r
}

/// The fields gathered by the scanner, mirroring [`scan_form`].
spec fn scan_view(r: Option<(Option<Vec<u8>>, Option<Vec<u8>>)>) -> Option<
    (Option<Seq<u8>>, Option<Seq<u8>>),
> {
    match r {
        Some(p) => Some(
            (
                match p.0 {
                    Some(e) => Some(e@),
                    None => None,
                },
                match p.1 {
                    Some(n) => Some(n@),
                    None => None,
                },
            ),
        ),
        None => None,
    }
}

fn scan_form_range(v: &Vec<u8>, i: usize) -> (r: Option<(Option<Vec<u8>>, Option<Vec<u8>>)>)
    requires
        i <= v@.len(),
    ensures
        scan_view(r) == scan_form(v@.skip(i as int)),
    decreases v@.len() - i,
{
    let ghost s = v@.skip(i as int);
    let j = find_byte(v, i, v.len(), 38);
    proof {
        lemma_first_index_props(s, 38);
        assert forall|k: int| 0 <= k < j - i implies s[k] != 38 by {
            assert(s[k] == v@[i + k]);
        }
        if j < v.len() {
            assert(s[j - i] == v@[j as int]);
            // the scan stopped on a separator, and nothing before it is
            // one, so the spec's first occurrence is exactly here
            if first_index(s, 38) < j - i {
                assert(s[first_index(s, 38) as int] == 38);
            }
            assert(first_index(s, 38) == j - i);
        } else {
            // no separator anywhere in the suffix
            if first_index(s, 38) < s.len() {
                assert(s[first_index(s, 38) as int] == 38);
            }
            assert(first_index(s, 38) >= s.len());
        }
    }
    let comp = decode_component_range(v, i, j);
    if j == v.len() {
        proof {
            assert(v@.subrange(i as int, j as int) =~= s);
        }
        match comp {
            None => None,
            Some((k, val)) => {
                if is_email_key(&k) {
                    Some((Some(val), None))
                } else if is_name_key(&k) {
                    Some((None, Some(val)))
                } else {
                    Some((None, None))
                }
            },
        }
    } else {
        proof {
            assert(s.take(j - i) =~= v@.subrange(i as int, j as int));
            assert(s.skip(j - i + 1) =~= v@.skip(j as int + 1));
        }
        let rest = scan_form_range(v, j + 1);
        match (comp, rest) {
            (Some((k, val)), Some(r)) => {
                if is_email_key(&k) {
                    if r.0.is_some() {
                        None
                    } else {
                        Some((Some(val), r.1))
                    }
                } else if is_name_key(&k) {
                    if r.1.is_some() {
                        None
                    } else {
                        Some((r.0, Some(val)))
                    }
                } else {
                    Some(r)
                }
            },
            _ => None,
        }
    }
}

/// Relies on `String::from_utf8`: it returns the decoded string exactly
/// when the bytes are valid UTF-8, and the decoding is the UTF-8 one.
#[verifier::external_body]
fn bytes_to_string(bytes: Vec<u8>) -> (r: Option<String>)
    ensures
        r is Some <==> valid_utf8(bytes@),
        r matches Some(s) ==> s@ == decode_utf8(bytes@),
{
    String::from_utf8(bytes).ok()
}

/// Decode a URL-form-encoded subscription body into its raw `email` and
/// `name` fields. A body that does not decode, lacks either field,
/// repeats one, or carries one that is not valid UTF-8 is rejected with
/// the client-error status the endpoint answers with.
pub fn parse_form_body(body: &str) -> (r: Result<FormData, u16>)
    ensures
        r is Ok <==> form_data_of(encode_utf8(body@)) is Some,
        r matches Ok(f) ==> form_data_of(encode_utf8(body@)) == Some((f.email@, f.name@)),
        r is Err ==> r == Err::<FormData, u16>(400),
{
    let bytes = body.as_bytes_vec();
    proof {
        assert(bytes@.skip(0) =~= bytes@);
    }
    match scan_form_range(&bytes, 0) {
        None => Err(400),
        Some((oe, on)) => match (oe, on) {
            (Some(e), Some(n)) => match (bytes_to_string(e), bytes_to_string(n)) {
                (Some(email), Some(name)) => Ok(FormData { email, name }),
                _ => Err(400),
            },
            _ => Err(400),
        },
    }
}

} // verus!
