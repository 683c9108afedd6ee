//! The open segment: an in-memory record buffer that is compressed, hashed
//! and described by a manifest at finalization. The writer computes every
//! value and hands back the file-system actions — write, fsync, atomic
//! rename — that promote the segment; the surrounding daemon performs them.
//!
//! Unlike a streaming design that appends to the compressed temporary file
//! as records arrive, the writer holds the whole bucket's records in memory
//! until finalization, so its memory use grows with the bucket; in exchange
//! the temporary file is written once, complete, just before the rename.

use vstd::prelude::*;
use vstd::string::*;

use crate::archive::manifest::{hex_of, sha256_hex, sha256_of, sidecar_path, SegmentManifest};
use crate::archive::manifest::spec_manifest_json;
use crate::archive::types::{spec_stream_name, ArchiveStream, FinalizedSegment, SegmentPaths};
use crate::config::{ArchiveConfig, CompressionKind, LayoutProfile};

verus! {

/// One file-system step that the daemon must perform, in order.
#[derive(Clone, Debug)]
pub enum FsAction {
    /// Create the parent directories of `path`.
    EnsureDirFor { path: String },
    /// Write `bytes` to `path`, fsyncing afterwards when `fsync` is set.
    WriteFile { path: String, bytes: Vec<u8>, fsync: bool },
    /// Write UTF-8 `text` to `path`.
    WriteText { path: String, text: String },
    /// Atomically rename `from` to `to` (same file system).
    Rename { from: String, to: String },
}

/// The gzip stream that the compressor yields for a byte string, at the
/// default level: a function of the bytes alone, since the encoder writes a
/// fixed header (mtime 0, a fixed OS byte).
pub uninterp spec fn gzip_of(data: Seq<u8>) -> Seq<u8>;

/// Relies on flate2's `write::GzEncoder` at the default level, writing into
/// an in-memory buffer: one gzip stream holding the input bytes. The encoder
/// only surfaces its sink's write errors, and a byte vector never fails a
/// write, so the call succeeds.
#[verifier::external_body]
fn gzip_compress(data: &Vec<u8>) -> (r: Result<Vec<u8>, String>)
    ensures
        r is Ok,
        r matches Ok(v) ==> v@ == gzip_of(data@),
{
    let mut enc = flate2::write::GzEncoder::new(Vec::new(), flate2::Compression::default());
    std::io::Write::write_all(&mut enc, data.as_slice()).map_err(|e| e.to_string())?;
    enc.finish().map_err(|e| e.to_string())
}

/// The bzip2 stream that the compressor yields for a byte string, at the
/// default level: a function of the bytes alone.
pub uninterp spec fn bzip2_of(data: Seq<u8>) -> Seq<u8>;

/// Relies on bzip2's `write::BzEncoder` at the default level, writing into
/// an in-memory buffer: one bzip2 stream holding the input bytes. With valid
/// fixed parameters and an infallible sink the encoder has no failing path,
/// so the call succeeds.
#[verifier::external_body]
fn bzip2_compress(data: &Vec<u8>) -> (r: Result<Vec<u8>, String>)
    ensures
        r is Ok,
        r matches Ok(v) ==> v@ == bzip2_of(data@),
{
    let mut enc = bzip2::write::BzEncoder::new(Vec::new(), bzip2::Compression::default());
    std::io::Write::write_all(&mut enc, data.as_slice()).map_err(|e| e.to_string())?;
    enc.finish().map_err(|e| e.to_string())
}

/// The zstd frame that the compressor yields for a byte string at level 3:
/// a function of the bytes alone (single-threaded, fixed level).
pub uninterp spec fn zstd_of(data: Seq<u8>) -> Seq<u8>;

/// Relies on zstd's `encode_all` at level 3 over in-memory buffers: one zstd
/// frame holding the input bytes. Level 3 is valid and both ends are byte
/// vectors, so the only failure the source leaves is an allocation failure
/// inside the compressor, which this library treats as it treats every
/// allocation: the call succeeds.
#[verifier::external_body]
fn zstd_compress(data: &Vec<u8>) -> (r: Result<Vec<u8>, String>)
    ensures
        r is Ok,
        r matches Ok(v) ==> v@ == zstd_of(data@),
{
    zstd::encode_all(data.as_slice(), 3).map_err(|e| e.to_string())
}

/// The compressed form of a byte string under each codec.
pub open spec fn spec_compressed(kind: CompressionKind, data: Seq<u8>) -> Seq<u8> {
    match kind {
        CompressionKind::Gzip => gzip_of(data),
        CompressionKind::Bzip2 => bzip2_of(data),
        CompressionKind::Zstd => zstd_of(data),
    }
}

/// Compresses a byte buffer with the configured codec.
fn compress(kind: CompressionKind, data: &Vec<u8>) -> (r: Vec<u8>)
    ensures
        r@ == spec_compressed(kind, data@),
{
    let out = match kind {
        CompressionKind::Gzip => gzip_compress(data),
        CompressionKind::Bzip2 => bzip2_compress(data),
        CompressionKind::Zstd => zstd_compress(data),
    };
    match out {
        Ok(v) => v,
        Err(_) => {
            proof {
                assert(false);
            }
            Vec::new()
        },
    }
}

/// Everything `finalize` yields for a writer `w` closed at `end_ts`: the
/// finalized record's fields, and the five file-system actions in order —
/// make the temporary directory, write the compressed buffer to the
/// temporary path (fsynced when configured), make the final directory,
/// atomically rename into place, and write the manifest sidecar whose
/// fields describe exactly those compressed bytes.
pub open spec fn spec_finalize_outcome(
    w: SegmentWriter,
    end_ts: i64,
    seg: FinalizedSegment,
    actions: Seq<FsAction>,
) -> bool {
    &&& seg.stream == w.stream
    &&& seg.start_ts == w.start_ts
    &&& seg.end_ts == end_ts
    &&& seg.record_count == w.record_count
    &&& seg.bytes == spec_compressed(w.compression, w.buffer@).len()
    &&& seg.compression == w.compression
    &&& seg.final_path == w.paths.final_path
    &&& seg.relative_path == w.paths.relative_path
    &&& seg.manifest_path@ == w.paths.final_path@ + ".json"@
    &&& actions.len() == 5
    &&& actions[0] matches FsAction::EnsureDirFor { path } && path == w.paths.tmp_path
    &&& actions[2] matches FsAction::EnsureDirFor { path } && path == w.paths.final_path
    &&& actions[3] matches FsAction::Rename { from, to } && from == w.paths.tmp_path && to
        == w.paths.final_path
    &&& actions[1] matches FsAction::WriteFile { path, bytes, fsync } && path == w.paths.tmp_path
        && fsync == w.fsync_on_rotate && bytes@ == spec_compressed(w.compression, w.buffer@)
    &&& actions[4] matches FsAction::WriteText { path: mp, text } && mp == seg.manifest_path
        && exists|mf: SegmentManifest|
        {
            &&& #[trigger] spec_manifest_json(mf) == text@
            &&& mf.collector_id == w.collector_id
            &&& mf.stream@ == spec_stream_name(w.stream)
            &&& mf.start_ts == w.start_ts
            &&& mf.end_ts == end_ts
            &&& mf.record_count == w.record_count
            &&& mf.bytes == spec_compressed(w.compression, w.buffer@).len()
            &&& mf.sha256@ == hex_of(sha256_of(spec_compressed(w.compression, w.buffer@)))
            &&& mf.compression == w.compression
            &&& mf.layout_profile == w.layout_profile
            &&& mf.relative_path == seg.relative_path
        }
}

/// An open segment: one stream, one bucket, a buffer of appended MRT records.
pub struct SegmentWriter {
    pub stream: ArchiveStream,
    pub start_ts: i64,
    pub paths: SegmentPaths,
    pub collector_id: String,
    pub compression: CompressionKind,
    pub layout_profile: LayoutProfile,
    pub fsync_on_rotate: bool,
    pub buffer: Vec<u8>,
    pub record_count: u64,
}

impl SegmentWriter {
    /// The writer's record count never exceeds its buffered bytes, since
    /// every appended record is non-empty.
    pub open spec fn wf(self) -> bool {
        self.record_count <= self.buffer@.len()
    }

    /// Opens a fresh segment for one bucket.
    pub fn new(cfg: &ArchiveConfig, stream: ArchiveStream, start_ts: i64, paths: SegmentPaths) -> (r:
        SegmentWriter)
        ensures
            r.wf(),
            r.stream == stream,
            r.start_ts == start_ts,
            r.paths == paths,
            r.collector_id@ == cfg.collector_id@,
            r.compression == cfg.compression,
            r.layout_profile == cfg.layout_profile,
            r.fsync_on_rotate == cfg.fsync_on_rotate,
            r.buffer@ == Seq::<u8>::empty(),
            r.record_count == 0,
    {
        let r = SegmentWriter {
            stream,
            start_ts,
            paths,
            collector_id: cfg.collector_id.clone(),
            compression: cfg.compression,
            layout_profile: cfg.layout_profile,
            fsync_on_rotate: cfg.fsync_on_rotate,
            buffer: Vec::new(),
            record_count: 0,
        };
        proof {
            assert(r.buffer@ =~= Seq::<u8>::empty());
        }
        r
    }

    /// Appends one record's bytes to the open segment. Records carry their
    /// own framing, so the bytes go in as they are.
    pub fn write_record(&mut self, record: &[u8])
        requires
            old(self).wf(),
            record@.len() >= 1,
        ensures
            final(self).wf(),
            final(self).buffer@ == old(self).buffer@ + record@,
            final(self).record_count == old(self).record_count + 1,
            final(self).stream == old(self).stream,
            final(self).start_ts == old(self).start_ts,
            final(self).paths == old(self).paths,
            final(self).collector_id == old(self).collector_id,
            final(self).compression == old(self).compression,
            final(self).layout_profile == old(self).layout_profile,
            final(self).fsync_on_rotate == old(self).fsync_on_rotate,
    {
        self.buffer.extend_from_slice(record);
        let n = self.buffer.len();
        proof {
            assert(self.record_count < n);
        }
        self.record_count = self.record_count + 1;
    }

    /// The final path the segment will get.
    pub fn path(&self) -> (r: &String)
        ensures
            r == &self.paths.final_path,
    {
        &self.paths.final_path
    }

    pub fn record_count(&self) -> (r: u64)
        ensures
            r == self.record_count,
    {
        self.record_count
    }

    pub fn start_ts(&self) -> (r: i64)
        ensures
            r == self.start_ts,
    {
        self.start_ts
    }

    /// Closes the segment: compresses the buffer, hashes the compressed
    /// bytes, builds the manifest, and returns the finalized record together
    /// with the file-system actions that persist it — write the temporary
    /// file (fsynced when configured), rename it into place, write the
    /// manifest sidecar. `spec_finalize_outcome` states the whole result.
    pub fn finalize(self, end_ts: i64) -> (r: (FinalizedSegment, Vec<FsAction>))
        ensures
            spec_finalize_outcome(self, end_ts, r.0, r.1@),
    {
        let compressed = compress(self.compression, &self.buffer);
        let manifest = SegmentManifest::build(
            self.collector_id,
            self.stream,
            self.start_ts,
            end_ts,
            self.record_count,
            self.compression,
            self.layout_profile,
            &compressed,
            self.paths.relative_path.clone(),
        );
        let manifest_text = manifest.to_json();
        let manifest_path = sidecar_path(self.paths.final_path.as_str());
        let bytes_len = compressed.len() as u64;
        let seg = FinalizedSegment {
            stream: self.stream,
            start_ts: self.start_ts,
            end_ts,
            record_count: self.record_count,
            bytes: bytes_len,
            compression: self.compression,
            final_path: self.paths.final_path.clone(),
            relative_path: self.paths.relative_path,
            manifest_path: manifest_path.clone(),
        };
        let mut actions: Vec<FsAction> = Vec::new();
        actions.push(FsAction::EnsureDirFor { path: self.paths.tmp_path.clone() });
        actions.push(
            FsAction::WriteFile {
                path: self.paths.tmp_path.clone(),
                bytes: compressed,
                fsync: self.fsync_on_rotate,
            },
        );
        actions.push(FsAction::EnsureDirFor { path: self.paths.final_path.clone() });
        actions.push(
            FsAction::Rename { from: self.paths.tmp_path, to: self.paths.final_path },
        );
        actions.push(FsAction::WriteText { path: manifest_path, text: manifest_text });
        proof {
            assert(spec_manifest_json(manifest) == manifest_text@);
        }
        (seg, actions)
    }
}

} // verus!
