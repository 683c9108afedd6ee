//! The JSON sidecar manifest of a finalized segment.

use vstd::prelude::*;
use vstd::string::*;

use crate::archive::types::{spec_stream_name, ArchiveStream};
use crate::config::{CompressionKind, LayoutProfile};
use crate::textfmt::{dec_str, dec_u64, dec_i64, digit_str, signed_dec_str};

verus! {

/// The lowercase hex digit for a value in `0..=15`.
pub open spec fn hex_digit(d: int) -> char {
    if d < 10 {
        crate::textfmt::digit_char(d)
    } else if d == 10 {
        'a'
    } else if d == 11 {
        'b'
    } else if d == 12 {
        'c'
    } else if d == 13 {
        'd'
    } else if d == 14 {
        'e'
    } else {
        'f'
    }
}

/// The lowercase hex rendering of a byte string, two digits per byte.
pub open spec fn hex_of(data: Seq<u8>) -> Seq<char>
    decreases data.len(),
{
    if data.len() == 0 {
        Seq::empty()
    } else {
        hex_of(data.drop_last()) + seq![
            hex_digit(data.last() as int / 16),
            hex_digit(data.last() as int % 16),
        ]
    }
}

/// The SHA-256 digest of a byte string: a function of the bytes alone.
pub uninterp spec fn sha256_of(data: Seq<u8>) -> Seq<u8>;

/// Relies on sha2's `Sha256`: the 32-byte digest of the input.
#[verifier::external_body]
fn sha256_digest(data: &Vec<u8>) -> (r: Vec<u8>)
    ensures
        r@ == sha256_of(data@),
        r@.len() == 32,
{
    let mut h = <sha2::Sha256 as sha2::Digest>::new();
    sha2::Digest::update(&mut h, data.as_slice());
    sha2::Digest::finalize(h).to_vec()
}

/// Relies on hex::encode: lowercase hex, two digits per byte, in order.
#[verifier::external_body]
fn hex_encode(data: &Vec<u8>) -> (r: String)
    ensures
        r@ == hex_of(data@),
{
    hex::encode(data.as_slice())
}

/// The lowercase hex of the SHA-256 digest of `data`.
pub fn sha256_hex(data: &Vec<u8>) -> (r: String)
    ensures
        r@ == hex_of(sha256_of(data@)),
{
    let digest = sha256_digest(data);
    hex_encode(&digest)
}

/// The JSON escape of one character: the two-character escapes for quote,
/// backslash and the common control characters, `\u00XX` for the remaining
/// control characters, the character itself otherwise.
pub open spec fn esc_char(c: char) -> Seq<char> {
    if c == '"' {
        seq!['\\', '"']
    } else if c == '\\' {
        seq!['\\', '\\']
    } else if c == '\n' {
        seq!['\\', 'n']
    } else if c == '\r' {
        seq!['\\', 'r']
    } else if c == '\t' {
        seq!['\\', 't']
    } else if (c as u32) < 32 {
        seq!['\\', 'u', '0', '0', hex_digit(c as int / 16), hex_digit(c as int % 16)]
    } else {
        seq![c]
    }
}

/// The JSON escape of a string.
pub open spec fn json_escaped(s: Seq<char>) -> Seq<char>
    decreases s.len(),
{
    if s.len() == 0 {
        Seq::empty()
    } else {
        json_escaped(s.drop_last()) + esc_char(s.last())
    }
}

fn hex_digit_str(d: u8) -> (r: &'static str)
    requires
        d < 16,
    ensures
        r@ == seq![hex_digit(d as int)],
{
    if d < 10 {
        digit_str(d)
    } else if d == 10 {
        proof { reveal_strlit("a"); }
        assert("a"@ =~= seq![hex_digit(10int)]);
        "a"
    } else if d == 11 {
        proof { reveal_strlit("b"); }
        assert("b"@ =~= seq![hex_digit(11int)]);
        "b"
    } else if d == 12 {
        proof { reveal_strlit("c"); }
        assert("c"@ =~= seq![hex_digit(12int)]);
        "c"
    } else if d == 13 {
        proof { reveal_strlit("d"); }
        assert("d"@ =~= seq![hex_digit(13int)]);
        "d"
    } else if d == 14 {
        proof { reveal_strlit("e"); }
        assert("e"@ =~= seq![hex_digit(14int)]);
        "e"
    } else {
        proof { reveal_strlit("f"); }
        assert("f"@ =~= seq![hex_digit(15int)]);
        "f"
    }
}

/// Escapes a string for inclusion in a JSON string literal.
pub fn json_escape(s: &str) -> (r: String)
    ensures
        r@ == json_escaped(s@),
{
    let n = s.unicode_len();
    let mut out = String::new();
    let mut i: usize = 0;
    while i < n
        invariant
            i <= n,
            n == s@.len(),
            out@ == json_escaped(s@.take(i as int)),
        decreases n - i,
    {
        let ghost pre = s@.take(i as int);
        let c = s.get_char(i);
        proof {
            assert(s@.take(i + 1).drop_last() =~= pre);
            assert(s@.take(i + 1).last() == c);
        }
        if c == '"' {
            proof { reveal_strlit("\\\""); }
            out.append("\\\"");
            proof { assert("\\\""@ =~= esc_char(c)); }
        } else if c == '\\' {
            proof { reveal_strlit("\\\\"); }
            out.append("\\\\");
            proof { assert("\\\\"@ =~= esc_char(c)); }
        } else if c == '\n' {
            proof { reveal_strlit("\\n"); }
            out.append("\\n");
            proof { assert("\\n"@ =~= esc_char(c)); }
        } else if c == '\r' {
            proof { reveal_strlit("\\r"); }
            out.append("\\r");
            proof { assert("\\r"@ =~= esc_char(c)); }
        } else if c == '\t' {
            proof { reveal_strlit("\\t"); }
            out.append("\\t");
            proof { assert("\\t"@ =~= esc_char(c)); }
        } else if (c as u32) < 32 {
            let v = c as u32;
            proof { reveal_strlit("\\u00"); }
            out.append("\\u00");
            out.append(hex_digit_str((v / 16) as u8));
            out.append(hex_digit_str((v % 16) as u8));
            proof {
                assert("\\u00"@ + seq![hex_digit(v as int / 16)] + seq![hex_digit(v as int % 16)]
                    =~= esc_char(c));
            }
        } else {
            out.append(s.substring_char(i, i + 1));
            proof {
                assert(s@.subrange(i as int, i + 1) =~= seq![c]);
                assert(seq![c] =~= esc_char(c));
            }
        }
        proof {
            assert(out@ =~= json_escaped(s@.take(i + 1)));
        }
        i = i + 1;
    }
    proof {
        assert(s@.take(n as int) =~= s@);
    }
    out
}

/// The profile name as it appears in a manifest.
pub open spec fn spec_profile_name(p: LayoutProfile) -> Seq<char> {
    match p {
        LayoutProfile::RouteViews => "routeviews"@,
        LayoutProfile::Ris => "ris"@,
        LayoutProfile::Custom => "custom"@,
    }
}

pub fn profile_name(p: LayoutProfile) -> (r: &'static str)
    ensures
        r@ == spec_profile_name(p),
{
    match p {
        LayoutProfile::RouteViews => "routeviews",
        LayoutProfile::Ris => "ris",
        LayoutProfile::Custom => "custom",
    }
}

/// The codec name as it appears in a manifest.
pub open spec fn spec_compression_name(c: CompressionKind) -> Seq<char> {
    match c {
        CompressionKind::Gzip => "gzip"@,
        CompressionKind::Bzip2 => "bzip2"@,
        CompressionKind::Zstd => "zstd"@,
    }
}

pub fn compression_name(c: CompressionKind) -> (r: &'static str)
    ensures
        r@ == spec_compression_name(c),
{
    match c {
        CompressionKind::Gzip => "gzip",
        CompressionKind::Bzip2 => "bzip2",
        CompressionKind::Zstd => "zstd",
    }
}

/// The metadata sidecar of one finalized segment.
#[derive(Clone, Debug)]
pub struct SegmentManifest {
    pub collector_id: String,
    pub stream: String,
    pub start_ts: i64,
    pub end_ts: i64,
    pub record_count: u64,
    pub bytes: u64,
    pub sha256: String,
    pub compression: CompressionKind,
    pub layout_profile: LayoutProfile,
    pub relative_path: String,
}

/// The manifest's JSON rendering: one object with the ten fields in a fixed
/// order, string values escaped.
pub open spec fn spec_manifest_json(m: SegmentManifest) -> Seq<char> {
    "{\"collector_id\":\""@ + json_escaped(m.collector_id@) + "\",\"stream\":\""@ + json_escaped(
        m.stream@,
    ) + "\",\"start_ts\":"@ + signed_dec_str(m.start_ts as int) + ",\"end_ts\":"@ + signed_dec_str(
        m.end_ts as int,
    ) + ",\"record_count\":"@ + dec_str(m.record_count as nat) + ",\"bytes\":"@ + dec_str(
        m.bytes as nat,
    ) + ",\"sha256\":\""@ + json_escaped(m.sha256@) + "\",\"compression\":\""@
        + spec_compression_name(m.compression) + "\",\"layout_profile\":\""@ + spec_profile_name(
        m.layout_profile,
    ) + "\",\"relative_path\":\""@ + json_escaped(m.relative_path@) + "\"}"@
}

impl SegmentManifest {
    /// Builds the manifest of a segment from its finalized compressed bytes.
    pub fn build(
        collector_id: String,
        stream: ArchiveStream,
        start_ts: i64,
        end_ts: i64,
        record_count: u64,
        compression: CompressionKind,
        layout_profile: LayoutProfile,
        segment_bytes: &Vec<u8>,
        relative_path: String,
    ) -> (r: SegmentManifest)
        ensures
            r.collector_id == collector_id,
            r.stream@ == spec_stream_name(stream),
            r.start_ts == start_ts,
            r.end_ts == end_ts,
            r.record_count == record_count,
            r.bytes == segment_bytes@.len(),
            r.sha256@ == hex_of(sha256_of(segment_bytes@)),
            r.compression == compression,
            r.layout_profile == layout_profile,
            r.relative_path == relative_path,
    {
        let sha256 = sha256_hex(segment_bytes);
        SegmentManifest {
            collector_id,
            stream: stream.as_str().to_owned(),
            start_ts,
            end_ts,
            record_count,
            bytes: segment_bytes.len() as u64,
            sha256,
            compression,
            layout_profile,
            relative_path,
        }
    }

    /// Renders the manifest as its JSON sidecar text.
    pub fn to_json(&self) -> (r: String)
        ensures
            r@ == spec_manifest_json(*self),
    {
        let mut out: String = "{\"collector_id\":\"".to_owned();
        out.append(json_escape(self.collector_id.as_str()).as_str());
        out.append("\",\"stream\":\"");
        out.append(json_escape(self.stream.as_str()).as_str());
        out.append("\",\"start_ts\":");
        out.append(dec_i64(self.start_ts).as_str());
        out.append(",\"end_ts\":");
        out.append(dec_i64(self.end_ts).as_str());
        out.append(",\"record_count\":");
        out.append(dec_u64(self.record_count).as_str());
        out.append(",\"bytes\":");
        out.append(dec_u64(self.bytes).as_str());
        out.append(",\"sha256\":\"");
        out.append(json_escape(self.sha256.as_str()).as_str());
        out.append("\",\"compression\":\"");
        out.append(compression_name(self.compression));
        out.append("\",\"layout_profile\":\"");
        out.append(profile_name(self.layout_profile));
        out.append("\",\"relative_path\":\"");
        out.append(json_escape(self.relative_path.as_str()).as_str());
        out.append("\"}");
        proof {
            assert(out@ =~= spec_manifest_json(*self));
        }
        out
    }
}

/// The sidecar path of a segment: the segment path with `.json` appended.
pub fn sidecar_path(segment_path: &str) -> (r: String)
    ensures
        r@ == segment_path@ + ".json"@,
{
    let mut out = segment_path.to_owned();
    out.append(".json");
    out
}

} // verus!
