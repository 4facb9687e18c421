//! Compact binary codec for the configuration record.
//!
//! A record is serialized as its three fields in order — API token, SSID,
//! password — each as one length byte followed by that many bytes of
//! content.  Since every capacity is below 128 the length always fits one
//! byte.  Decoding ignores any bytes after the third field, so a record
//! read back from a larger flash window decodes to the value written.
use vstd::prelude::*;

use crate::config::{CapyConfig, ConfigModel, Tokens, WifiCredentials};
use crate::config::{PASSWORD_MAX_LEN, SSID_MAX_LEN, TOKEN_MAX_LEN};

verus! {

/// Largest number of bytes an encoded record can occupy.
pub const ENCODED_MAX_LEN: usize = 93;

/// One field: a length byte, then the contents.
pub open spec fn spec_encode_field(f: Seq<u8>) -> Seq<u8> {
    seq![f.len() as u8] + f
}

/// A whole record: token, SSID, password, each length-prefixed.
pub open spec fn spec_encode(m: ConfigModel) -> Seq<u8> {
    spec_encode_field(m.github) + spec_encode_field(m.ssid) + spec_encode_field(m.password)
}

/// Decodes one length-prefixed field starting at `pos`: the contents and
/// the position just after them, or `None` when the length byte is
/// missing, exceeds `max`, or promises more bytes than remain.
pub open spec fn spec_decode_field(b: Seq<u8>, pos: int, max: int) -> Option<(Seq<u8>, int)> {
    if 0 <= pos < b.len() {
        let n = b[pos] as int;
        if n <= max && pos + 1 + n <= b.len() {
            Some((b.subrange(pos + 1, pos + 1 + n), pos + 1 + n))
        } else {
            None
        }
    } else {
        None
    }
}

/// Decodes a record from the front of `b`, ignoring trailing bytes.
pub open spec fn spec_decode(b: Seq<u8>) -> Option<ConfigModel> {
    match spec_decode_field(b, 0, TOKEN_MAX_LEN as int) {
        Some((github, p1)) => match spec_decode_field(b, p1, SSID_MAX_LEN as int) {
            Some((ssid, p2)) => match spec_decode_field(b, p2, PASSWORD_MAX_LEN as int) {
                Some((password, _)) => Some(ConfigModel { github, ssid, password }),
                None => None,
            },
            None => None,
        },
        None => None,
    }
}

/// Appends one length-prefixed field to `out`.
fn encode_field(out: &mut Vec<u8>, f: &Vec<u8>)
    requires
        f@.len() <= 127,
        old(out)@.len() + 1 + f@.len() <= usize::MAX,
    ensures
        final(out)@ == old(out)@ + spec_encode_field(f@),
{
    let ghost pre = out@;
    out.push(f.len() as u8);
    let mut i: usize = 0;
    while i < f.len()
        invariant
            i <= f@.len(),
            f@.len() <= 127,
            out@ == pre + seq![f@.len() as u8] + f@.subrange(0, i as int),
        decreases f@.len() - i,
    {
        out.push(f[i]);
        assert(out@ =~= pre + seq![f@.len() as u8] + f@.subrange(0, i + 1 as int));
        i = i + 1;
    }
    assert(out@ =~= pre + spec_encode_field(f@));
}

/// Serializes a record.  The result never exceeds `ENCODED_MAX_LEN`.
pub fn encode_config(c: &CapyConfig) -> (r: Vec<u8>)
    requires
        c.wf(),
    ensures
        r@ == spec_encode(c@),
        r@.len() <= ENCODED_MAX_LEN,
{
    let mut out: Vec<u8> = Vec::new();
    encode_field(&mut out, &c.api_tokens.github);
    encode_field(&mut out, &c.wifi_credentials.ssid);
    encode_field(&mut out, &c.wifi_credentials.password);
    assert(out@ =~= spec_encode(c@));
    out
}

/// Reads one length-prefixed field of `b` starting at `pos`.
fn decode_field(b: &Vec<u8>, pos: usize, max: usize) -> (r: Option<(Vec<u8>, usize)>)
    ensures
        match r {
            Some((f, next)) => {
                &&& spec_decode_field(b@, pos as int, max as int) == Some((f@, next as int))
                &&& f@.len() <= max
                &&& pos < next <= b@.len()
            },
            None => spec_decode_field(b@, pos as int, max as int) is None,
        },
{
    let blen = b.len();
    if pos >= blen {
        return None;
    }
    let n = b[pos] as usize;
    if n > max || n > blen - pos - 1 {
        return None;
    }
    let mut f: Vec<u8> = Vec::new();
    let mut i: usize = 0;
    while i < n
        invariant
            i <= n,
            blen == b@.len(),
            pos + 1 + n <= blen,
            f@ == b@.subrange(pos + 1, pos + 1 + i),
        decreases n - i,
    {
        f.push(b[pos + 1 + i]);
        assert(f@ =~= b@.subrange(pos + 1, pos + 1 + (i + 1)));
        i = i + 1;
    }
    Some((f, pos + 1 + n))
}

/// Deserializes a record from the front of `b`; `None` exactly when the
/// bytes do not parse as a record within the field capacities.
pub fn decode_config(b: &Vec<u8>) -> (r: Option<CapyConfig>)
    ensures
        match r {
            Some(c) => spec_decode(b@) == Some(c@) && c.wf(),
            None => spec_decode(b@) is None,
        },
{
    let Some((github, p1)) = decode_field(b, 0, TOKEN_MAX_LEN) else {
        return None;
    };
    let Some((ssid, p2)) = decode_field(b, p1, SSID_MAX_LEN) else {
        return None;
    };
    let Some((password, _p3)) = decode_field(b, p2, PASSWORD_MAX_LEN) else {
        return None;
    };
    let c = CapyConfig {
        api_tokens: Tokens { github },
        wifi_credentials: WifiCredentials { ssid, password },
    };
    assert(spec_decode(b@) == Some(c@));
    Some(c)
}

/// Decoding starts over again from an encoded record, whatever follows it:
/// the codec round-trips through any window that begins with the encoding.
pub proof fn lemma_decode_encode(m: ConfigModel, tail: Seq<u8>)
    requires
        m.wf(),
    ensures
        spec_decode(spec_encode(m) + tail) == Some(m),
{
    let b = spec_encode(m) + tail;
    let g = m.github.len() as int;
    let s = m.ssid.len() as int;
    let p = m.password.len() as int;
    assert(b[0] == g as u8);
    assert(spec_decode_field(b, 0, TOKEN_MAX_LEN as int) == Some((m.github, 1 + g))) by {
        assert(b.subrange(1, 1 + g) =~= m.github);
    }
    assert(b[1 + g] == s as u8);
    assert(spec_decode_field(b, 1 + g, SSID_MAX_LEN as int) == Some((m.ssid, 2 + g + s))) by {
        assert(b.subrange(2 + g, 2 + g + s) =~= m.ssid);
    }
    assert(b[2 + g + s] == p as u8);
    assert(spec_decode_field(b, 2 + g + s, PASSWORD_MAX_LEN as int) == Some((
        m.password,
        3 + g + s + p,
    ))) by {
        assert(b.subrange(3 + g + s, 3 + g + s + p) =~= m.password);
    }
    assert(spec_decode(b) == Some(ConfigModel { github: m.github, ssid: m.ssid, password: m.password }));
    assert(ConfigModel { github: m.github, ssid: m.ssid, password: m.password } =~= m);
}

/// Serialize, then deserialize: the record comes back unchanged.
pub proof fn lemma_round_trip(m: ConfigModel)
    requires
        m.wf(),
    ensures
        spec_decode(spec_encode(m)) == Some(m),
{
    assert(spec_encode(m) + Seq::<u8>::empty() =~= spec_encode(m));
    lemma_decode_encode(m, Seq::empty());
}

} // verus!
