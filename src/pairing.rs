use vstd::prelude::*;
use vstd::string::*;
use vstd::utf8::encode_utf8;

verus! {

/// The URL-safe, unpadded base64 text of `bytes`, as the base64 crate writes it.
pub uninterp spec fn base64_url_nopad(bytes: Seq<u8>) -> Seq<char>;

/// Length of unpadded base64 text for `n` input bytes.
pub open spec fn base64_nopad_len(n: nat) -> nat {
    4 * (n / 3) + if n % 3 == 0 {
        0
    } else {
        n % 3 + 1
    }
}

/// Relies on `base64::encode_config` with `URL_SAFE_NO_PAD`: four characters
/// per three bytes and two or three for a trailing one or two. Its size
/// computation overflows only beyond `isize::MAX` bytes, which no slice reaches.
#[verifier::external_body]
fn encode_url_safe(bytes: &[u8]) -> (r: String)
    ensures
        r@ == base64_url_nopad(bytes@),
        r@.len() == base64_nopad_len(bytes@.len()),
{
    base64::encode_config(bytes, base64::URL_SAFE_NO_PAD)
}

pub const PAIRING_URL_PREFIX: &'static str = "http://imp.ress.me/t/sshelper?d=";

/// Number of '.' bytes.
pub open spec fn dot_count(bytes: Seq<u8>) -> nat
    decreases bytes.len(),
{
    if bytes.len() == 0 {
        0
    } else {
        dot_count(bytes.drop_last()) + if bytes.last() == 46u8 {
            1nat
        } else {
            0nat
        }
    }
}

/// An address written with exactly three dots, as IPv4 addresses are. A '.'
/// byte never occurs inside a multi-byte character, so this counts characters.
pub open spec fn is_dotted_quad(ip: Seq<char>) -> bool {
    dot_count(encode_utf8(ip)) == 3
}

/// The encodings of the dotted-quad addresses, in order.
pub open spec fn encoded_addresses(ips: Seq<Seq<char>>) -> Seq<Seq<char>>
    decreases ips.len(),
{
    if ips.len() == 0 {
        Seq::empty()
    } else {
        let rest = encoded_addresses(ips.drop_last());
        if is_dotted_quad(ips.last()) {
            rest.push(base64_url_nopad(encode_utf8(ips.last())))
        } else {
            rest
        }
    }
}

/// The parts separated by ';'.
pub open spec fn joined(parts: Seq<Seq<char>>) -> Seq<char>
    decreases parts.len(),
{
    if parts.len() == 0 {
        Seq::empty()
    } else if parts.len() == 1 {
        parts[0]
    } else {
        joined(parts.drop_last()) + seq![';'] + parts.last()
    }
}

/// The pairing link for a list of local addresses.
pub open spec fn pairing_link_of(ips: Seq<Seq<char>>) -> Seq<char> {
    PAIRING_URL_PREFIX@ + joined(encoded_addresses(ips))
}

fn count_dots(bytes: &[u8]) -> (r: usize)
    ensures
        r == dot_count(bytes@),
{
    let mut n: usize = 0;
    let mut i: usize = 0;
    while i < bytes.len()
        invariant
            0 <= i <= bytes@.len(),
            n == dot_count(bytes@.subrange(0, i as int)),
            n <= i,
        decreases bytes@.len() - i,
    {
        assert(bytes@.subrange(0, i + 1).drop_last() =~= bytes@.subrange(0, i as int));
        if bytes[i] == 46u8 {
            n = n + 1;
        }
        i = i + 1;
    }
    assert(bytes@.subrange(0, i as int) =~= bytes@);
    n
}

/// The link that a companion device opens to find this machine: the fixed
/// prefix, then the URL-safe base64 of each dotted-quad address, joined by ';'.
pub fn brokenithm_link(ips: &Vec<String>) -> (r: String)
    ensures
        r@ == pairing_link_of(ips@.map_values(|s: String| s@)),
{
    let ghost views = ips@.map_values(|s: String| s@);
    let mut payload = String::new();
    let ghost mut parts: Seq<Seq<char>> = Seq::empty();
    let mut kept: usize = 0;
    let mut i: usize = 0;
    while i < ips.len()
        invariant
            0 <= i <= ips@.len(),
            kept == parts.len(),
            kept <= i,
            views == ips@.map_values(|s: String| s@),
            parts == encoded_addresses(views.subrange(0, i as int)),
            payload@ == joined(parts),
        decreases ips@.len() - i,
    {
        let ip = ips[i].as_str();
        let bytes = ip.as_bytes();
        assert(views.subrange(0, i + 1).drop_last() =~= views.subrange(0, i as int));
        assert(views.subrange(0, i + 1).last() == ip@);
        if count_dots(bytes) == 3 {
            let code = encode_url_safe(bytes);
            if kept != 0 {
                proof {
                    reveal_strlit(";");
                }
                payload.append(";");
            }
            payload.append(code.as_str());
            kept = kept + 1;
            proof {
                let old_parts = parts;
                parts = parts.push(code@);
                assert(parts.drop_last() =~= old_parts);
                if old_parts.len() == 0 {
                    assert(payload@ =~= code@);
                } else {
                    assert(payload@ =~= joined(old_parts) + seq![';'] + code@);
                }
            }
        }
        i = i + 1;
    }
    assert(views.subrange(0, ips@.len() as int) =~= views);
    let mut link = PAIRING_URL_PREFIX.to_owned();
    link.append(payload.as_str());
    link
}

} // verus!
