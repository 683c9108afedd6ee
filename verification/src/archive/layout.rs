//! Segment path layout: bucket alignment and the directory/file conventions
//! of the routeviews, ris and custom profiles.

use vstd::prelude::*;
use vstd::arithmetic::div_mod::{lemma_fundamental_div_mod, lemma_mod_bound, lemma_mod_multiples_basic};
use vstd::string::*;

use crate::archive::types::{ArchiveStream, SegmentPaths};
use crate::config::{spec_extension, ArchiveConfig, CustomLayoutTemplates, LayoutProfile};
use crate::errors::{ArchiveError, ErrorKind};
use crate::textfmt::{
    contains_seq, contains_str, dec_pad, dec_str, find_last, replace_all, replace_all_str,
    rfind_char, str_eq, trim_start_char, trim_start_str, zero_pad,
};

verus! {

/// The start of the bucket that `t` falls into, for a positive interval `i`:
/// `t` rounded down to a multiple of `i`.
pub open spec fn spec_aligned(t: int, i: int) -> int {
    t - (t % i)
}

/// Every timestamp falls inside the bucket it is aligned to, and bucket
/// starts are exact multiples of the interval.
pub proof fn lemma_bucket_alignment(t: int, i: int)
    requires
        i > 0,
    ensures
        spec_aligned(t, i) <= t < spec_aligned(t, i) + i,
        spec_aligned(t, i) % i == 0,
{
    lemma_mod_bound(t, i);
    lemma_fundamental_div_mod(t, i);
    assert(t - (t % i) == i * (t / i));
    lemma_mod_multiples_basic(t / i, i);
    assert((t / i) * i == i * (t / i)) by (nonlinear_arith);
}

/// Rounds `timestamp` down to the start of its bucket, using the Euclidean
/// remainder so that negative timestamps align stably.
pub fn aligned_epoch(timestamp: i64, interval_secs: u32) -> (aligned: i64)
    requires
        interval_secs > 0,
        i64::MIN + interval_secs <= timestamp,
    ensures
        aligned == spec_aligned(timestamp as int, interval_secs as int),
        aligned <= timestamp < aligned + interval_secs,
        (aligned as int) % (interval_secs as int) == 0,
{
    let interval = interval_secs as i64;
    let rem = timestamp.checked_rem_euclid(interval).unwrap();
    proof {
        lemma_mod_bound(timestamp as int, interval as int);
        lemma_bucket_alignment(timestamp as int, interval as int);
    }
    timestamp - rem
}

/// The calendar reading of a UTC timestamp.
#[derive(Clone, Copy, Debug, PartialEq, Eq, Structural)]
pub struct UtcParts {
    pub year: i32,
    pub month: u32,
    pub day: u32,
    pub hour: u32,
    pub minute: u32,
}

/// The calendar parts that the time library assigns to an epoch second, or
/// `None` outside its representable range.
pub uninterp spec fn utc_calendar_of(ts: i64) -> Option<UtcParts>;

/// Relies on chrono's `TimeZone::timestamp_opt` on `Utc` together with the
/// `Datelike` and `Timelike` accessors: the proleptic-Gregorian UTC calendar
/// parts of an epoch second, `None` when the timestamp is out of chrono's
/// range. The component ranges are the ones chrono documents for those
/// accessors.
#[verifier::external_body]
fn utc_calendar(ts: i64) -> (r: Option<UtcParts>)
    ensures
        r == utc_calendar_of(ts),
        r matches Some(p) ==> 1 <= p.month <= 12 && 1 <= p.day <= 31 && p.hour <= 23 && p.minute
            <= 59,
{
    match chrono::TimeZone::timestamp_opt(&chrono::Utc, ts, 0).single() {
        Some(dt) => Some(
            UtcParts {
                year: chrono::Datelike::year(&dt),
                month: chrono::Datelike::month(&dt),
                day: chrono::Datelike::day(&dt),
                hour: chrono::Timelike::hour(&dt),
                minute: chrono::Timelike::minute(&dt),
            },
        ),
        None => None,
    }
}

/// A year as the `{:04}` format writes it: four digits zero-padded, with a
/// sign taking one of the pad positions for negative years.
pub open spec fn spec_year4(y: int) -> Seq<char> {
    if y >= 0 {
        zero_pad(dec_str(y as nat), 4)
    } else {
        seq!['-'] + zero_pad(dec_str((-y) as nat), 3)
    }
}

/// A calendar component zero-padded to two digits.
pub open spec fn pad2(n: int) -> Seq<char> {
    zero_pad(dec_str(n as nat), 2)
}

/// `YYYYMMDD`.
pub open spec fn spec_ymd(y: int, mo: int, d: int) -> Seq<char> {
    spec_year4(y) + pad2(mo) + pad2(d)
}

/// `HHMM`.
pub open spec fn spec_hhmm(hh: int, mi: int) -> Seq<char> {
    pad2(hh) + pad2(mi)
}

/// `YYYY.MM`, the month directory of the fixed profiles.
pub open spec fn spec_year_month(y: int, mo: int) -> Seq<char> {
    spec_year4(y) + seq!['.'] + pad2(mo)
}

fn year4_str(y: i32) -> (r: String)
    ensures
        r@ == spec_year4(y as int),
{
    if y >= 0 {
        dec_pad(y as u64, 4)
    } else {
        let mag: u64 = ((-(y + 1)) as u64) + 1;
        proof {
            reveal_strlit("-");
        }
        let mut out: String = "-".to_owned();
        proof {
            assert(out@ =~= seq!['-']);
        }
        out.append(dec_pad(mag, 3).as_str());
        out
    }
}

/// Joining a directory and a relative path with exactly one separator; an
/// empty base yields the relative path alone.
pub open spec fn spec_path_join(base: Seq<char>, rel: Seq<char>) -> Seq<char> {
    if base.len() == 0 {
        rel
    } else if base.last() == '/' {
        base + rel
    } else {
        base + seq!['/'] + rel
    }
}

pub fn path_join(base: &str, rel: &str) -> (r: String)
    ensures
        r@ == spec_path_join(base@, rel@),
{
    let n = base.unicode_len();
    if n == 0 {
        return rel.to_owned();
    }
    let mut out = base.to_owned();
    if base.get_char(n - 1) != '/' {
        proof {
            reveal_strlit("/");
        }
        out.append("/");
        proof {
            assert(out@ =~= base@ + seq!['/']);
        }
    }
    out.append(rel);
    out
}

/// The rendering of a custom template: the seven tokens substituted in a
/// fixed order, then the codec extension appended when the resulting file
/// name has none. Fails with `Config` when a required token is missing and
/// with `Layout` when no usable file name comes out.
pub open spec fn spec_custom_relative(
    template: Seq<char>,
    collector: Seq<char>,
    y: int,
    mo: int,
    d: int,
    hh: int,
    mi: int,
    ext: Seq<char>,
) -> Result<Seq<char>, ErrorKind> {
    if !(contains_seq(template, "{collector}"@) && contains_seq(template, "{yyyymmdd}"@)
        && contains_seq(template, "{hhmm}"@)) {
        Err(ErrorKind::Config)
    } else {
        let r1 = replace_all(template, "{collector}"@, collector);
        let r2 = replace_all(r1, "{yyyy}"@, spec_year4(y));
        let r3 = replace_all(r2, "{mm}"@, pad2(mo));
        let r4 = replace_all(r3, "{dd}"@, pad2(d));
        let r5 = replace_all(r4, "{yyyymmdd}"@, spec_ymd(y, mo, d));
        let r6 = replace_all(r5, "{hhmm}"@, spec_hhmm(hh, mi));
        let rendered = replace_all(r6, "{ext}"@, ext);
        let name = rendered.skip(find_last(rendered, '/') + 1);
        if name.len() == 0 || name == "."@ || name == ".."@ {
            Err(ErrorKind::Layout)
        } else if find_last(name, '.') >= 1 {
            Ok(rendered)
        } else {
            Ok(rendered + seq!['.'] + ext)
        }
    }
}

/// Renders a custom layout template for one segment.
pub fn build_custom_relative_path(
    template: &str,
    collector: &str,
    year: i32,
    month: u32,
    day: u32,
    hour: u32,
    minute: u32,
    ext: &str,
) -> (r: Result<String, ArchiveError>)
    ensures
        match r {
            Ok(p) => spec_custom_relative(
                template@,
                collector@,
                year as int,
                month as int,
                day as int,
                hour as int,
                minute as int,
                ext@,
            ) == Ok::<Seq<char>, ErrorKind>(p@),
            Err(e) => spec_custom_relative(
                template@,
                collector@,
                year as int,
                month as int,
                day as int,
                hour as int,
                minute as int,
                ext@,
            ) == Err::<Seq<char>, ErrorKind>(e.kind),
        },
{
    if !(contains_str(template, "{collector}") && contains_str(template, "{yyyymmdd}")
        && contains_str(template, "{hhmm}")) {
        return Err(ArchiveError::new(
            ErrorKind::Config,
            "custom template must contain the {collector}, {yyyymmdd} and {hhmm} tokens".to_owned(),
        ));
    }
    proof {
        reveal_strlit("{collector}");
        reveal_strlit("{yyyy}");
        reveal_strlit("{mm}");
        reveal_strlit("{dd}");
        reveal_strlit("{yyyymmdd}");
        reveal_strlit("{hhmm}");
        reveal_strlit("{ext}");
    }
    let y4 = year4_str(year);
    let mo2 = dec_pad(month as u64, 2);
    let d2 = dec_pad(day as u64, 2);
    let mut ymd = year4_str(year);
    ymd.append(mo2.as_str());
    ymd.append(d2.as_str());
    let mut hm = dec_pad(hour as u64, 2);
    hm.append(dec_pad(minute as u64, 2).as_str());
    let r1 = replace_all_str(template, "{collector}", collector);
    let r2 = replace_all_str(r1.as_str(), "{yyyy}", y4.as_str());
    let r3 = replace_all_str(r2.as_str(), "{mm}", mo2.as_str());
    let r4 = replace_all_str(r3.as_str(), "{dd}", d2.as_str());
    let r5 = replace_all_str(r4.as_str(), "{yyyymmdd}", ymd.as_str());
    let r6 = replace_all_str(r5.as_str(), "{hhmm}", hm.as_str());
    let rendered = replace_all_str(r6.as_str(), "{ext}", ext);
    let n = rendered.as_str().unicode_len();
    let name_from = match rfind_char(rendered.as_str(), '/') {
        Some(i) => i + 1,
        None => 0,
    };
    let name = rendered.as_str().substring_char(name_from, n);
    proof {
        assert(name@ =~= rendered@.skip(find_last(rendered@, '/') + 1));
        reveal_strlit(".");
        reveal_strlit("..");
    }
    if name.unicode_len() == 0 || str_eq(name, ".") || str_eq(name, "..") {
        return Err(ArchiveError::new(
            ErrorKind::Layout,
            "custom template did not produce a file name".to_owned(),
        ));
    }
    let has_ext = match rfind_char(name, '.') {
        Some(i) => i >= 1,
        None => false,
    };
    if has_ext {
        Ok(rendered)
    } else {
        let mut out = rendered;
        out.append(".");
        out.append(ext);
        proof {
            assert(out@ =~= rendered@ + seq!['.'] + ext@);
        }
        Ok(out)
    }
}

/// The bucket interval that governs a stream.
pub open spec fn spec_stream_interval(cfg: ArchiveConfig, stream: ArchiveStream) -> u32 {
    match stream {
        ArchiveStream::Updates => cfg.updates_interval_secs,
        ArchiveStream::Ribs => cfg.ribs_interval_secs,
    }
}

/// The relative path of one segment under the archive root, per profile.
pub open spec fn spec_relative_result(
    cfg: ArchiveConfig,
    stream: ArchiveStream,
    p: UtcParts,
) -> Result<Seq<char>, ErrorKind> {
    let ext = spec_extension(cfg.compression);
    let col = cfg.collector_id@;
    let ym = spec_year_month(p.year as int, p.month as int);
    let ymd = spec_ymd(p.year as int, p.month as int, p.day as int);
    let hm = spec_hhmm(p.hour as int, p.minute as int);
    match cfg.layout_profile {
        LayoutProfile::RouteViews => Ok(
            col + "/"@ + ym + (match stream {
                ArchiveStream::Updates => "/UPDATES/updates."@,
                ArchiveStream::Ribs => "/RIBS/rib."@,
            }) + ymd + "."@ + hm + "."@ + ext,
        ),
        LayoutProfile::Ris => Ok(
            col + "/"@ + ym + (match stream {
                ArchiveStream::Updates => "/updates."@,
                ArchiveStream::Ribs => "/bview."@,
            }) + ymd + "."@ + hm + "."@ + ext,
        ),
        LayoutProfile::Custom => match cfg.custom_templates {
            None => Err(ErrorKind::Config),
            Some(t) => spec_custom_relative(
                match stream {
                    ArchiveStream::Updates => t.updates@,
                    ArchiveStream::Ribs => t.ribs@,
                },
                col,
                p.year as int,
                p.month as int,
                p.day as int,
                p.hour as int,
                p.minute as int,
                ext,
            ),
        },
    }
}

/// The full path computation for one segment: where its temporary file, its
/// final file and its manifest-relative path lie. `Layout` failures come from
/// an unrepresentable timestamp or an unusable file name; `Config` failures
/// from a missing or token-less custom template.
pub open spec fn spec_segment_paths(
    cfg: ArchiveConfig,
    stream: ArchiveStream,
    timestamp: i64,
) -> Result<(Seq<char>, Seq<char>, Seq<char>), ErrorKind> {
    let interval = spec_stream_interval(cfg, stream);
    let aligned = spec_aligned(timestamp as int, interval as int);
    match utc_calendar_of(aligned as i64) {
        None => Err(ErrorKind::Layout),
        Some(p) => match spec_relative_result(cfg, stream, p) {
            Err(k) => Err(k),
            Ok(rel) => {
                let cut = find_last(rel, '/') + 1;
                let name = rel.skip(cut);
                if name.len() == 0 || name == "."@ || name == ".."@ {
                    Err(ErrorKind::Layout)
                } else {
                    let tmp_rel = rel.take(cut) + seq!['.'] + trim_start_char(name, '.')
                        + ".tmp"@;
                    Ok(
                        (
                            spec_path_join(cfg.tmp_root@, tmp_rel),
                            spec_path_join(cfg.root@, rel),
                            rel,
                        ),
                    )
                }
            },
        },
    }
}

/// Computes the temporary, final and relative paths of the segment that
/// covers `timestamp` on `stream`.
pub fn segment_paths(cfg: &ArchiveConfig, stream: ArchiveStream, timestamp: i64) -> (r: Result<
    SegmentPaths,
    ArchiveError,
>)
    requires
        spec_stream_interval(*cfg, stream) > 0,
        i64::MIN + spec_stream_interval(*cfg, stream) <= timestamp,
    ensures
        match r {
            Ok(p) => spec_segment_paths(*cfg, stream, timestamp) == Ok::<
                (Seq<char>, Seq<char>, Seq<char>),
                ErrorKind,
            >((p.tmp_path@, p.final_path@, p.relative_path@)),
            Err(e) => spec_segment_paths(*cfg, stream, timestamp) == Err::<
                (Seq<char>, Seq<char>, Seq<char>),
                ErrorKind,
            >(e.kind),
        },
{
    let interval = match stream {
        ArchiveStream::Updates => cfg.updates_interval_secs,
        ArchiveStream::Ribs => cfg.ribs_interval_secs,
    };
    let aligned = aligned_epoch(timestamp, interval);
    let parts = match utc_calendar(aligned) {
        Some(p) => p,
        None => {
            return Err(ArchiveError::new(
                ErrorKind::Layout,
                "timestamp is outside the representable calendar range".to_owned(),
            ));
        },
    };
    let ext = cfg.compression.extension();
    let rel: String = match cfg.layout_profile {
        LayoutProfile::RouteViews => {
            let seg = match stream {
                ArchiveStream::Updates => "/UPDATES/updates.",
                ArchiveStream::Ribs => "/RIBS/rib.",
            };
            fixed_profile_path(cfg, parts, seg, ext)
        },
        LayoutProfile::Ris => {
            let seg = match stream {
                ArchiveStream::Updates => "/updates.",
                ArchiveStream::Ribs => "/bview.",
            };
            fixed_profile_path(cfg, parts, seg, ext)
        },
        LayoutProfile::Custom => {
            match &cfg.custom_templates {
                None => {
                    return Err(ArchiveError::new(
                        ErrorKind::Config,
                        "custom layout profile requires archive custom_templates".to_owned(),
                    ));
                },
                Some(t) => {
                    let template = match stream {
                        ArchiveStream::Updates => t.updates.as_str(),
                        ArchiveStream::Ribs => t.ribs.as_str(),
                    };
                    match build_custom_relative_path(
                        template,
                        cfg.collector_id.as_str(),
                        parts.year,
                        parts.month,
                        parts.day,
                        parts.hour,
                        parts.minute,
                        ext,
                    ) {
                        Ok(s) => s,
                        Err(e) => {
                            return Err(e);
                        },
                    }
                },
            }
        },
    };
    let n = rel.as_str().unicode_len();
    let cut = match rfind_char(rel.as_str(), '/') {
        Some(i) => i + 1,
        None => 0,
    };
    let name = rel.as_str().substring_char(cut, n);
    proof {
        assert(name@ =~= rel@.skip(find_last(rel@, '/') + 1));
        reveal_strlit(".");
        reveal_strlit("..");
    }
    if name.unicode_len() == 0 || str_eq(name, ".") || str_eq(name, "..") {
        return Err(ArchiveError::new(
            ErrorKind::Layout,
            "cannot derive a temporary file name for the archive segment".to_owned(),
        ));
    }
    let dir = rel.as_str().substring_char(0, cut);
    let mut tmp_rel = dir.to_owned();
    tmp_rel.append(".");
    tmp_rel.append(trim_start_str(name, '.').as_str());
    tmp_rel.append(".tmp");
    proof {
        reveal_strlit(".tmp");
        assert(tmp_rel@ =~= rel@.take(find_last(rel@, '/') + 1) + seq!['.'] + trim_start_char(
            name@,
            '.',
        ) + ".tmp"@);
    }
    let tmp_path = path_join(cfg.tmp_root.as_str(), tmp_rel.as_str());
    let final_path = path_join(cfg.root.as_str(), rel.as_str());
    Ok(SegmentPaths { tmp_path, final_path, relative_path: rel })
}

/// Builds `{collector}/{YYYY.MM}{segment}{YYYYMMDD}.{HHMM}.{ext}`.
fn fixed_profile_path(cfg: &ArchiveConfig, parts: UtcParts, seg: &str, ext: &str) -> (r: String)
    ensures
        r@ == cfg.collector_id@ + "/"@ + spec_year_month(parts.year as int, parts.month as int)
            + seg@ + spec_ymd(parts.year as int, parts.month as int, parts.day as int) + "."@
            + spec_hhmm(parts.hour as int, parts.minute as int) + "."@ + ext@,
{
    let mut out = cfg.collector_id.as_str().to_owned();
    out.append("/");
    out.append(year4_str(parts.year).as_str());
    out.append(".");
    out.append(dec_pad(parts.month as u64, 2).as_str());
    out.append(seg);
    out.append(year4_str(parts.year).as_str());
    out.append(dec_pad(parts.month as u64, 2).as_str());
    out.append(dec_pad(parts.day as u64, 2).as_str());
    out.append(".");
    out.append(dec_pad(parts.hour as u64, 2).as_str());
    out.append(dec_pad(parts.minute as u64, 2).as_str());
    out.append(".");
    out.append(ext);
    proof {
        reveal_strlit(".");
        assert(out@ =~= cfg.collector_id@ + "/"@ + spec_year_month(
            parts.year as int,
            parts.month as int,
        ) + seg@ + spec_ymd(parts.year as int, parts.month as int, parts.day as int) + "."@
            + spec_hhmm(parts.hour as int, parts.minute as int) + "."@ + ext@);
    }
    out
}

} // verus!
