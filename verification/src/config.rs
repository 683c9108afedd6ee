//! Configuration of the daemon and its archive subsystem, with verified
//! validation rules.

use vstd::prelude::*;
use vstd::string::*;

use crate::errors::{ArchiveError, ErrorKind};
use crate::netparse::{valid_ipv4, valid_ipv4_net};
use crate::textfmt::contains_seq;
use crate::textfmt::contains_str;

verus! {

#[derive(Clone, Copy, Debug, PartialEq, Eq, Structural)]
pub enum LayoutProfile {
    RouteViews,
    Ris,
    Custom,
}

#[derive(Clone, Copy, Debug, PartialEq, Eq, Structural)]
pub enum CompressionKind {
    Gzip,
    Bzip2,
    Zstd,
}

#[derive(Clone, Copy, Debug, PartialEq, Eq, Structural)]
pub enum RibSource {
    AdjRibIn,
    LocRib,
}

#[derive(Clone, Copy, Debug, PartialEq, Eq, Structural)]
pub enum DestinationType {
    Local,
    S3,
}

#[derive(Clone, Copy, Debug, PartialEq, Eq, Structural)]
pub enum DestinationMode {
    Primary,
    AsyncReplica,
}

/// The canonical file extension of each compression codec.
pub open spec fn spec_extension(c: CompressionKind) -> Seq<char> {
    match c {
        CompressionKind::Gzip => "gz"@,
        CompressionKind::Bzip2 => "bz2"@,
        CompressionKind::Zstd => "zst"@,
    }
}

impl CompressionKind {
    pub fn extension(self) -> (r: &'static str)
        ensures
            r@ == spec_extension(self),
    {
        match self {
            CompressionKind::Gzip => "gz",
            CompressionKind::Bzip2 => "bz2",
            CompressionKind::Zstd => "zst",
        }
    }
}

#[derive(Clone, Debug)]
pub struct CustomLayoutTemplates {
    pub updates: String,
    pub ribs: String,
}

/// A custom template must name the collector, the day and the time, so that
/// rendered segment paths cannot collide across buckets.
pub open spec fn spec_template_has_tokens(t: Seq<char>) -> bool {
    contains_seq(t, "{collector}"@) && contains_seq(t, "{yyyymmdd}"@) && contains_seq(t, "{hhmm}"@)
}

pub open spec fn spec_templates_valid(t: CustomLayoutTemplates) -> bool {
    spec_template_has_tokens(t.updates@) && spec_template_has_tokens(t.ribs@)
}

impl CustomLayoutTemplates {
    pub fn validate(&self) -> (r: Result<(), ArchiveError>)
        ensures
            r is Ok <==> spec_templates_valid(*self),
            r is Err ==> r->Err_0.kind == ErrorKind::Config,
    {
        if !contains_str(self.updates.as_str(), "{collector}") {
            return Err(ArchiveError::new(
                ErrorKind::Config,
                "custom updates template must contain the {collector} token".to_owned(),
            ));
        }
        if !contains_str(self.updates.as_str(), "{yyyymmdd}") {
            return Err(ArchiveError::new(
                ErrorKind::Config,
                "custom updates template must contain the {yyyymmdd} token".to_owned(),
            ));
        }
        if !contains_str(self.updates.as_str(), "{hhmm}") {
            return Err(ArchiveError::new(
                ErrorKind::Config,
                "custom updates template must contain the {hhmm} token".to_owned(),
            ));
        }
        if !contains_str(self.ribs.as_str(), "{collector}") {
            return Err(ArchiveError::new(
                ErrorKind::Config,
                "custom ribs template must contain the {collector} token".to_owned(),
            ));
        }
        if !contains_str(self.ribs.as_str(), "{yyyymmdd}") {
            return Err(ArchiveError::new(
                ErrorKind::Config,
                "custom ribs template must contain the {yyyymmdd} token".to_owned(),
            ));
        }
        if !contains_str(self.ribs.as_str(), "{hhmm}") {
            return Err(ArchiveError::new(
                ErrorKind::Config,
                "custom ribs template must contain the {hhmm} token".to_owned(),
            ));
        }
        Ok(())
    }
}

#[derive(Clone, Debug)]
pub struct ArchiveDestinationConfig {
    pub destination_type: DestinationType,
    pub mode: DestinationMode,
    pub path: Option<String>,
    pub required: Option<bool>,
    pub endpoint: Option<String>,
    pub bucket: Option<String>,
    pub prefix: Option<String>,
    pub upload_concurrency: Option<usize>,
    pub retry_backoff_secs: Option<u64>,
    pub max_retries: Option<u32>,
    pub region: Option<String>,
    pub access_key_id: Option<String>,
    pub secret_access_key: Option<String>,
    pub session_token: Option<String>,
}

/// A local destination needs a path; an object-store destination needs an
/// endpoint and a bucket.
pub open spec fn spec_destination_valid(d: ArchiveDestinationConfig) -> bool {
    match d.destination_type {
        DestinationType::Local => d.path is Some,
        DestinationType::S3 => d.endpoint is Some && d.bucket is Some,
    }
}

/// The stable key that correlates replication jobs to destinations:
/// `local:{path}` or `s3:{endpoint}:{bucket}`.
pub open spec fn spec_destination_key(d: ArchiveDestinationConfig) -> Seq<char> {
    match d.destination_type {
        DestinationType::Local => "local:"@ + (match d.path {
            Some(p) => p@,
            None => "<missing>"@,
        }),
        DestinationType::S3 => "s3:"@ + (match d.endpoint {
            Some(e) => e@,
            None => "<missing>"@,
        }) + ":"@ + (match d.bucket {
            Some(b) => b@,
            None => "<missing>"@,
        }),
    }
}

impl ArchiveDestinationConfig {
    pub fn validate(&self) -> (r: Result<(), ArchiveError>)
        ensures
            r is Ok <==> spec_destination_valid(*self),
            r is Err ==> r->Err_0.kind == ErrorKind::Config,
    {
        match self.destination_type {
            DestinationType::Local => {
                if self.path.is_none() {
                    return Err(ArchiveError::new(
                        ErrorKind::Config,
                        "archive destination type=local requires path".to_owned(),
                    ));
                }
            },
            DestinationType::S3 => {
                if self.endpoint.is_none() || self.bucket.is_none() {
                    return Err(ArchiveError::new(
                        ErrorKind::Config,
                        "archive destination type=s3 requires endpoint and bucket".to_owned(),
                    ));
                }
            },
        }
        Ok(())
    }

    pub fn retry_backoff_secs(&self) -> (r: u64)
        ensures
            r == (match self.retry_backoff_secs {
                Some(v) => v,
                None => 5u64,
            }),
    {
        match &self.retry_backoff_secs {
            Some(v) => *v,
            None => 5,
        }
    }

    pub fn max_retries(&self) -> (r: u32)
        ensures
            r == (match self.max_retries {
                Some(v) => v,
                None => 0u32,
            }),
    {
        match &self.max_retries {
            Some(v) => *v,
            None => 0,
        }
    }

    pub fn upload_concurrency(&self) -> (r: usize)
        ensures
            r == (match self.upload_concurrency {
                Some(v) => v,
                None => 4usize,
            }),
    {
        match &self.upload_concurrency {
            Some(v) => *v,
            None => 4,
        }
    }

    pub fn destination_key(&self) -> (r: String)
        ensures
            r@ == spec_destination_key(*self),
    {
        match self.destination_type {
            DestinationType::Local => {
                let mut out: String = "local:".to_owned();
                match &self.path {
                    Some(p) => out.append(p.as_str()),
                    None => out.append("<missing>"),
                }
                out
            },
            DestinationType::S3 => {
                let mut out: String = "s3:".to_owned();
                match &self.endpoint {
                    Some(e) => out.append(e.as_str()),
                    None => out.append("<missing>"),
                }
                out.append(":");
                match &self.bucket {
                    Some(b) => out.append(b.as_str()),
                    None => out.append("<missing>"),
                }
                out
            },
        }
    }
}

#[derive(Clone, Debug)]
pub struct ArchiveConfig {
    pub enabled: bool,
    pub collector_id: String,
    pub layout_profile: LayoutProfile,
    pub updates_interval_secs: u32,
    pub ribs_interval_secs: u32,
    pub compression: CompressionKind,
    pub root: String,
    pub tmp_root: String,
    pub fsync_on_rotate: bool,
    pub include_peer_state_records: bool,
    pub rib_source: RibSource,
    pub custom_templates: Option<CustomLayoutTemplates>,
    pub destinations: Vec<ArchiveDestinationConfig>,
}

/// ASCII whitespace, as the collector-id blank check uses it.
pub open spec fn is_space(c: char) -> bool {
    c == ' ' || c == '\t' || c == '\n' || c == '\r'
}

/// True when `s` holds nothing but whitespace.
pub open spec fn is_blank(s: Seq<char>) -> bool {
    forall|i: int| 0 <= i < s.len() ==> is_space(#[trigger] s[i])
}

/// The whole validation rule of the archive section. A disabled archive is
/// always valid; an enabled one needs a non-blank collector id, an updates
/// interval dividing one hour, a ribs interval that is a positive multiple of
/// it, at least one destination with at least one primary, templates with the
/// required tokens for the custom profile, and well-formed destinations.
pub open spec fn spec_archive_config_valid(c: ArchiveConfig) -> bool {
    c.enabled ==> {
        &&& !is_blank(c.collector_id@)
        &&& c.updates_interval_secs > 0
        &&& 3600int % (c.updates_interval_secs as int) == 0
        &&& c.ribs_interval_secs > 0
        &&& (c.ribs_interval_secs as int) % (c.updates_interval_secs as int) == 0
        &&& c.destinations@.len() > 0
        &&& exists|i: int|
            0 <= i < c.destinations@.len() && (#[trigger] c.destinations@[i]).mode
                == DestinationMode::Primary
        &&& (c.layout_profile == LayoutProfile::Custom ==> match c.custom_templates {
            Some(t) => spec_templates_valid(t),
            None => false,
        })
        &&& forall|i: int|
            0 <= i < c.destinations@.len() ==> spec_destination_valid(
                #[trigger] c.destinations@[i],
            )
    }
}

impl ArchiveConfig {
    pub fn validate(&self) -> (r: Result<(), ArchiveError>)
        ensures
            r is Ok <==> spec_archive_config_valid(*self),
            r is Err ==> r->Err_0.kind == ErrorKind::Config,
    {
        if !self.enabled {
            return Ok(());
        }

        let mut blank = true;
        let id = self.collector_id.as_str();
        let n = id.unicode_len();
        let mut i: usize = 0;
        while i < n
            invariant
                i <= n,
                n == id@.len(),
                blank == is_blank(id@.take(i as int)),
            decreases n - i,
        {
            let ghost pre = id@.take(i as int);
            let c = id.get_char(i);
            proof {
                assert(id@.take(i + 1).drop_last() =~= pre);
                assert(id@.take(i + 1).last() == c);
                if blank && is_space(c) {
                    assert(forall|j: int| 0 <= j < i + 1 ==> is_space(#[trigger] id@.take(i + 1)[j]));
                } else if !blank {
                    let w = choose|j: int| 0 <= j < i && !is_space(#[trigger] pre[j]);
                    assert(!is_space(id@.take(i + 1)[w]));
                } else {
                    assert(!is_space(id@.take(i + 1)[i as int]));
                }
            }
            if !is_space_char(c) {
                blank = false;
            }
            i = i + 1;
        }
        proof {
            assert(id@.take(n as int) =~= id@);
        }
        if blank {
            return Err(ArchiveError::new(
                ErrorKind::Config,
                "archive collector_id must not be empty".to_owned(),
            ));
        }

        if self.updates_interval_secs == 0 || 3600u32 % self.updates_interval_secs != 0 {
            return Err(ArchiveError::new(
                ErrorKind::Config,
                "archive updates_interval_secs must be positive and divide 3600".to_owned(),
            ));
        }

        if self.ribs_interval_secs == 0 || self.ribs_interval_secs % self.updates_interval_secs
            != 0 {
            return Err(ArchiveError::new(
                ErrorKind::Config,
                "archive ribs_interval_secs must be a positive multiple of updates_interval_secs".to_owned(),
            ));
        }

        if self.destinations.len() == 0 {
            return Err(ArchiveError::new(
                ErrorKind::Config,
                "archive destinations must include at least one destination".to_owned(),
            ));
        }

        let mut has_primary = false;
        let mut i: usize = 0;
        let dn = self.destinations.len();
        while i < dn
            invariant
                i <= dn,
                dn == self.destinations@.len(),
                has_primary == exists|j: int|
                    0 <= j < i && (#[trigger] self.destinations@[j]).mode
                        == DestinationMode::Primary,
            decreases dn - i,
        {
            if matches!(self.destinations[i].mode, DestinationMode::Primary) {
                has_primary = true;
            }
            i = i + 1;
        }
        if !has_primary {
            return Err(ArchiveError::new(
                ErrorKind::Config,
                "archive destinations must include at least one mode=primary destination".to_owned(),
            ));
        }

        if matches!(self.layout_profile, LayoutProfile::Custom) {
            match &self.custom_templates {
                None => {
                    return Err(ArchiveError::new(
                        ErrorKind::Config,
                        "layout_profile=custom requires archive custom_templates".to_owned(),
                    ));
                },
                Some(t) => {
                    let tr = t.validate();
                    if let Err(e) = tr {
                        proof {
                            assert(self.layout_profile == LayoutProfile::Custom);
                            assert(!spec_templates_valid(*t));
                            assert(!spec_archive_config_valid(*self));
                        }
                        return Err(e);
                    }
                },
            }
        }

        let mut i: usize = 0;
        while i < dn
            invariant
                i <= dn,
                self.enabled,
                dn == self.destinations@.len(),
                forall|j: int| 0 <= j < i ==> spec_destination_valid(#[trigger] self.destinations@[j]),
            decreases dn - i,
        {
            let dr = self.destinations[i].validate();
            if let Err(e) = dr {
                return Err(e);
            }
            i = i + 1;
        }

        Ok(())
    }
}

/// Exec check for the whitespace characters of `is_space`.
fn is_space_char(c: char) -> (b: bool)
    ensures
        b == is_space(c),
{
    c == ' ' || c == '\t' || c == '\n' || c == '\r'
}

pub fn default_listen() -> (r: bool)
    ensures
        r == true,
{
    true
}

pub fn default_listen_addr() -> (r: String)
    ensures
        r@ == "0.0.0.0:179"@,
{
    "0.0.0.0:179".to_owned()
}

pub fn default_control_socket() -> (r: String)
    ensures
        r@ == "/tmp/focld.sock"@,
{
    "/tmp/focld.sock".to_owned()
}

pub fn default_log_level() -> (r: String)
    ensures
        r@ == "info"@,
{
    "info".to_owned()
}

pub fn default_true() -> (r: bool)
    ensures
        r == true,
{
    true
}

pub fn default_hold_time() -> (r: u16)
    ensures
        r == 90u16,
{
    90
}

pub fn default_connect_retry() -> (r: u16)
    ensures
        r == 5u16,
{
    5
}

pub fn default_collector_id() -> (r: String)
    ensures
        r@ == "focl01"@,
{
    "focl01".to_owned()
}

pub fn default_updates_interval() -> (r: u32)
    ensures
        r == 900u32,
{
    900
}

pub fn default_ribs_interval() -> (r: u32)
    ensures
        r == 7200u32,
{
    7200
}

pub fn default_archive_root() -> (r: String)
    ensures
        r@ == "/var/lib/focld/archive"@,
{
    "/var/lib/focld/archive".to_owned()
}

pub fn default_archive_tmp_root() -> (r: String)
    ensures
        r@ == "/var/lib/focld/archive/.tmp"@,
{
    "/var/lib/focld/archive/.tmp".to_owned()
}

impl Default for ArchiveConfig {
    /// The disabled default: routeviews layout, gzip, one primary local
    /// destination at the archive root.
    fn default() -> (r: ArchiveConfig)
        ensures
            r.enabled == false,
            r.collector_id@ == "focl01"@,
            r.layout_profile == LayoutProfile::RouteViews,
            r.updates_interval_secs == 900u32,
            r.ribs_interval_secs == 7200u32,
            r.compression == CompressionKind::Gzip,
            r.root@ == "/var/lib/focld/archive"@,
            r.tmp_root@ == "/var/lib/focld/archive/.tmp"@,
            r.fsync_on_rotate == true,
            r.include_peer_state_records == true,
            r.rib_source == RibSource::AdjRibIn,
            r.custom_templates is None,
            r.destinations@.len() == 1,
            r.destinations@[0].destination_type == DestinationType::Local,
            r.destinations@[0].mode == DestinationMode::Primary,
            r.destinations@[0].path matches Some(p) && p@ == "/var/lib/focld/archive"@,
            r.destinations@[0].required == Some(true),
            r.destinations@[0].endpoint is None,
            r.destinations@[0].bucket is None,
            r.destinations@[0].prefix is None,
            r.destinations@[0].upload_concurrency == Some(4usize),
            r.destinations@[0].retry_backoff_secs == Some(5u64),
            r.destinations@[0].max_retries == Some(0u32),
            r.destinations@[0].region is None,
            r.destinations@[0].access_key_id is None,
            r.destinations@[0].secret_access_key is None,
            r.destinations@[0].session_token is None,
    {
        let primary = ArchiveDestinationConfig {
            destination_type: DestinationType::Local,
            mode: DestinationMode::Primary,
            path: Some(default_archive_root()),
            required: Some(true),
            endpoint: None,
            bucket: None,
            prefix: None,
            upload_concurrency: Some(4),
            retry_backoff_secs: Some(5),
            max_retries: Some(0),
            region: None,
            access_key_id: None,
            secret_access_key: None,
            session_token: None,
        };
        let mut destinations: Vec<ArchiveDestinationConfig> = Vec::new();
        destinations.push(primary);
        ArchiveConfig {
            enabled: false,
            collector_id: default_collector_id(),
            layout_profile: LayoutProfile::RouteViews,
            updates_interval_secs: default_updates_interval(),
            ribs_interval_secs: default_ribs_interval(),
            compression: CompressionKind::Gzip,
            root: default_archive_root(),
            tmp_root: default_archive_tmp_root(),
            fsync_on_rotate: true,
            include_peer_state_records: true,
            rib_source: RibSource::AdjRibIn,
            custom_templates: None,
            destinations,
        }
    }
}

#[derive(Clone, Debug)]
pub struct GlobalConfig {
    pub asn: u32,
    pub router_id: String,
    pub listen: bool,
    pub listen_addr: String,
    pub control_socket: String,
    pub log_level: String,
}

#[derive(Clone, Debug)]
pub struct PeerConfig {
    pub address: String,
    pub remote_as: u32,
    pub local_as: Option<u32>,
    pub hold_time_secs: u16,
    pub connect_retry_secs: u16,
    pub enabled: bool,
    pub passive: bool,
    pub route_refresh: bool,
    pub name: Option<String>,
}

#[derive(Clone, Debug)]
pub struct PrefixConfig {
    pub network: String,
    pub next_hop: Option<String>,
}

#[derive(Clone, Debug)]
pub struct FoclConfig {
    pub global: GlobalConfig,
    pub peers: Vec<PeerConfig>,
    pub prefixes: Vec<PrefixConfig>,
    pub archive: ArchiveConfig,
}

pub open spec fn spec_peer_valid(p: PeerConfig) -> bool {
    p.remote_as != 0 && (p.hold_time_secs == 0 || p.hold_time_secs >= 3)
}

/// The whole validation rule of a daemon configuration: a non-zero ASN, a
/// parseable router id, sane peers, parseable prefixes, and a valid archive
/// section.
pub open spec fn spec_focl_config_valid(c: FoclConfig) -> bool {
    &&& c.global.asn != 0
    &&& valid_ipv4(c.global.router_id@, false)
    &&& forall|i: int| 0 <= i < c.peers@.len() ==> spec_peer_valid(#[trigger] c.peers@[i])
    &&& forall|i: int|
        0 <= i < c.prefixes@.len() ==> valid_ipv4_net((#[trigger] c.prefixes@[i]).network@)
    &&& spec_archive_config_valid(c.archive)
}

impl FoclConfig {
    pub fn validate(&self) -> (r: Result<(), ArchiveError>)
        ensures
            r is Ok <==> spec_focl_config_valid(*self),
            r is Err ==> r->Err_0.kind == ErrorKind::Config,
    {
        if self.global.asn == 0 {
            return Err(ArchiveError::new(
                ErrorKind::Config,
                "global asn must be non-zero".to_owned(),
            ));
        }
        if crate::netparse::parse_ipv4(self.global.router_id.as_str()).is_none() {
            return Err(ArchiveError::new(
                ErrorKind::Config,
                "global router_id must be a valid IPv4 address".to_owned(),
            ));
        }
        let pn = self.peers.len();
        let mut i: usize = 0;
        while i < pn
            invariant
                i <= pn,
                pn == self.peers@.len(),
                forall|j: int| 0 <= j < i ==> spec_peer_valid(#[trigger] self.peers@[j]),
            decreases pn - i,
        {
            let peer = &self.peers[i];
            if peer.remote_as == 0 {
                return Err(ArchiveError::new(
                    ErrorKind::Config,
                    "peer has invalid remote_as 0".to_owned(),
                ));
            }
            if peer.hold_time_secs != 0 && peer.hold_time_secs < 3 {
                return Err(ArchiveError::new(
                    ErrorKind::Config,
                    "peer hold_time_secs must be 0 or at least 3".to_owned(),
                ));
            }
            i = i + 1;
        }
        let fn_ = self.prefixes.len();
        let mut i: usize = 0;
        while i < fn_
            invariant
                i <= fn_,
                fn_ == self.prefixes@.len(),
                forall|j: int|
                    0 <= j < i ==> valid_ipv4_net((#[trigger] self.prefixes@[j]).network@),
            decreases fn_ - i,
        {
            if !crate::netparse::is_valid_ipv4_net(self.prefixes[i].network.as_str()) {
                return Err(ArchiveError::new(
                    ErrorKind::Config,
                    "invalid IPv4 prefix in prefixes".to_owned(),
                ));
            }
            i = i + 1;
        }
        self.archive.validate()
    }
}

} // verus!
