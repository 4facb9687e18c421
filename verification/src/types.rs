//! Request and response shapes of the desktop application's API surface,
//! and small helpers shared with it.
use vstd::prelude::*;

verus! {

/// Parameters for collecting local usage metrics.
pub struct ClaudeMetricsRequest {
    pub data_dir: Option<String>,
    pub hours_back: Option<u32>,
    pub python_path: Option<String>,
}

/// Token usage reported with an answer.
pub struct ClaudeUsage {
    pub input_tokens: u32,
    pub output_tokens: u32,
}

/// An answer from the question endpoint.
pub struct ClaudeQuestionResponse {
    pub answer: String,
    pub model: String,
    pub stop_reason: Option<String>,
    pub usage: Option<ClaudeUsage>,
}

/// Parameters for minting a room-access token.
pub struct LivekitTokenRequest {
    pub api_key: String,
    pub api_secret: String,
    pub identity: String,
    pub room: String,
    pub name: Option<String>,
    pub metadata: Option<String>,
    pub ttl_seconds: Option<i64>,
    pub can_publish: Option<bool>,
    pub can_subscribe: Option<bool>,
    pub can_publish_data: Option<bool>,
}

/// A minted room-access token and its expiry.
pub struct LivekitTokenResponse {
    pub token: String,
    pub expires_at: String,
}

/// ASCII lower-casing of one byte.
pub open spec fn spec_ascii_lower(b: u8) -> u8 {
    if 65 <= b <= 90 {
        (b + 32) as u8
    } else {
        b
    }
}

/// ASCII lower-casing of a byte string.
pub open spec fn spec_lower(s: Seq<u8>) -> Seq<u8> {
    s.map_values(|b: u8| spec_ascii_lower(b))
}

/// The subtype part of the MIME type for a lower-cased audio format
/// name: the handful of known names map to their registered subtype,
/// anything else is passed through.
pub open spec fn spec_audio_subtype(l: Seq<u8>) -> Seq<u8> {
    if l == seq![119u8, 97, 118] || l == seq![119u8, 97, 118, 101] {
        seq![119u8, 97, 118]
    } else if l == seq![109u8, 112, 51] {
        seq![109u8, 112, 101, 103]
    } else if l == seq![111u8, 103, 103] || l == seq![111u8, 103, 97] {
        seq![111u8, 103, 103]
    } else {
        l
    }
}

/// The MIME type for an audio format name, case-insensitively.
pub open spec fn spec_mime_of(f: Seq<u8>) -> Seq<u8> {
    seq![97u8, 117, 100, 105, 111, 47] + spec_audio_subtype(spec_lower(f))
}

/// ASCII lower-casing of one byte.
fn ascii_lower(b: u8) -> (r: u8)
    ensures
        r == spec_ascii_lower(b),
{
    if 65 <= b && b <= 90 {
        b + 32
    } else {
        b
    }
}

/// Maps an audio format name, in any case, to its MIME type: the known
/// formats to their registered types, anything else to `audio/` plus the
/// lower-cased name.
pub fn audio_format_to_mime(format: &Vec<u8>) -> (r: Vec<u8>)
    ensures
        r@ == spec_mime_of(format@),
{
    let flen = format.len();
    let mut low: Vec<u8> = Vec::new();
    let mut i: usize = 0;
    while i < flen
        invariant
            i <= flen,
            flen == format@.len(),
            low@.len() == i,
            forall|j: int| 0 <= j < i ==> low@[j] == spec_ascii_lower(format@[j]),
        decreases flen - i,
    {
        low.push(ascii_lower(format[i]));
        i = i + 1;
    }
    assert(low@ =~= spec_lower(format@));
    let mut out: Vec<u8> = Vec::new();
    out.push(97);
    out.push(117);
    out.push(100);
    out.push(105);
    out.push(111);
    out.push(47);
    assert(out@ =~= seq![97u8, 117, 100, 105, 111, 47]);
    let is_wav = low.len() == 3 && low[0] == 119 && low[1] == 97 && low[2] == 118;
    let is_wave = low.len() == 4 && low[0] == 119 && low[1] == 97 && low[2] == 118 && low[3]
        == 101;
    let is_mp3 = low.len() == 3 && low[0] == 109 && low[1] == 112 && low[2] == 51;
    let is_ogg = low.len() == 3 && low[0] == 111 && low[1] == 103 && low[2] == 103;
    let is_oga = low.len() == 3 && low[0] == 111 && low[1] == 103 && low[2] == 97;
    if is_wav || is_wave {
        proof {
            if is_wav {
                assert(low@ =~= seq![119u8, 97, 118]);
            } else {
                assert(low@ =~= seq![119u8, 97, 118, 101]);
            }
        }
        out.push(119);
        out.push(97);
        out.push(118);
    } else if is_mp3 {
        assert(low@ =~= seq![109u8, 112, 51]);
        out.push(109);
        out.push(112);
        out.push(101);
        out.push(103);
    } else if is_ogg || is_oga {
        proof {
            if is_ogg {
                assert(low@ =~= seq![111u8, 103, 103]);
            } else {
                assert(low@ =~= seq![111u8, 103, 97]);
            }
        }
        out.push(111);
        out.push(103);
        out.push(103);
    } else {
        proof {
            assert(low@ != seq![119u8, 97, 118]);
            assert(low@ != seq![119u8, 97, 118, 101]);
            assert(low@ != seq![109u8, 112, 51]);
            assert(low@ != seq![111u8, 103, 103]);
            assert(low@ != seq![111u8, 103, 97]);
        }
        let ghost pre = out@;
        let llen = low.len();
        let mut k: usize = 0;
        while k < llen
            invariant
                k <= llen,
                llen == low@.len(),
                out@ == pre + low@.subrange(0, k as int),
            decreases llen - k,
        {
            out.push(low[k]);
            assert(out@ =~= pre + low@.subrange(0, k + 1 as int));
            k = k + 1;
        }
        assert(out@ =~= pre + low@);
    }
    assert(out@ =~= spec_mime_of(format@));
    out
}

} // verus!
