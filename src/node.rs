use crate::document::{
    keys_of, lemma_last_index_to_map, pair_keys, parse_toml, push_scalar, push_setting, toml_settings, position, scalar_pairs, setting_pairs, to_map, document_view,
    Scalar, ScalarView, Setting, SettingView,
};
use vstd::prelude::*;

verus! {

/// Replication and transport settings of a node.
#[derive(Debug, Clone, PartialEq, Eq)]
pub struct ReplicationConfig {
    pub enabled: bool,
    pub mqtt_broker: String,
    pub mqtt_port: u16,
    pub topic_prefix: String,
    pub client_id: String,
    /// Absent means that no authentication is configured.
    pub client_password: Option<String>,
}

/// The resolved configuration record of a node.
#[derive(Debug, Clone, PartialEq, Eq)]
pub struct Config {
    pub host: String,
    pub port: u16,
    pub storage_path: String,
    pub engine: String,
    pub replication: ReplicationConfig,
    pub sync_interval_seconds: u64,
}

/// Mathematical model of a `ReplicationConfig`.
pub struct ReplicationView {
    pub enabled: bool,
    pub mqtt_broker: Seq<char>,
    pub mqtt_port: u16,
    pub topic_prefix: Seq<char>,
    pub client_id: Seq<char>,
    pub client_password: Option<Seq<char>>,
}

/// Mathematical model of a `Config`.
pub struct ConfigView {
    pub host: Seq<char>,
    pub port: u16,
    pub storage_path: Seq<char>,
    pub engine: Seq<char>,
    pub replication: ReplicationView,
    pub sync_interval_seconds: u64,
}

pub open spec fn opt_text_view(o: Option<String>) -> Option<Seq<char>> {
    match o {
        Some(s) => Some(s@),
        None => None,
    }
}

impl View for ReplicationConfig {
    type V = ReplicationView;

    open spec fn view(&self) -> ReplicationView {
        ReplicationView {
            enabled: self.enabled,
            mqtt_broker: self.mqtt_broker@,
            mqtt_port: self.mqtt_port,
            topic_prefix: self.topic_prefix@,
            client_id: self.client_id@,
            client_password: opt_text_view(self.client_password),
        }
    }
}

impl View for Config {
    type V = ConfigView;

    open spec fn view(&self) -> ConfigView {
        ConfigView {
            host: self.host@,
            port: self.port,
            storage_path: self.storage_path@,
            engine: self.engine@,
            replication: self.replication@,
            sync_interval_seconds: self.sync_interval_seconds,
        }
    }
}

pub open spec fn default_storage_path() -> Seq<char> {
    seq!['d', 'a', 't', 'a']
}

pub open spec fn default_engine() -> Seq<char> {
    seq!['r', 'w', 'l', 'o', 'c', 'k']
}

pub const DEFAULT_SYNC_INTERVAL_SECONDS: u64 = 60;

/// The baseline record: usable for local development with no file at all.
pub open spec fn default_view() -> ConfigView {
    ConfigView {
        host: seq!['1', '2', '7', '.', '0', '.', '0', '.', '1'],
        port: 7379,
        storage_path: default_storage_path(),
        engine: default_engine(),
        replication: ReplicationView {
            enabled: false,
            mqtt_broker: seq!['l', 'o', 'c', 'a', 'l', 'h', 'o', 's', 't'],
            mqtt_port: 1883,
            topic_prefix: seq!['m', 'e', 'r', 'k', 'l', 'e', '_', 'k', 'v'],
            client_id: seq!['n', 'o', 'd', 'e', '1'],
            client_password: None,
        },
        sync_interval_seconds: DEFAULT_SYNC_INTERVAL_SECONDS,
    }
}

/// Builds an owned string from a literal, keeping its characters.
fn text(s: &str) -> (r: String)
    ensures
        r@ == s@,
{
    s.to_string()
}

impl Config {
    /// The baseline configuration; every call yields the same record.
    pub fn default() -> (r: Config)
        ensures
            r@ == default_view(),
    {
        proof {
            reveal_strlit("127.0.0.1");
            reveal_strlit("data");
            reveal_strlit("rwlock");
            reveal_strlit("localhost");
            reveal_strlit("merkle_kv");
            reveal_strlit("node1");
        }
        let r = Config {
            host: text("127.0.0.1"),
            port: 7379,
            storage_path: text("data"),
            engine: text("rwlock"),
            replication: ReplicationConfig {
                enabled: false,
                mqtt_broker: text("localhost"),
                mqtt_port: 1883,
                topic_prefix: text("merkle_kv"),
                client_id: text("node1"),
                client_password: None,
            },
            sync_interval_seconds: DEFAULT_SYNC_INTERVAL_SECONDS,
        };
        assert(r.host@ =~= default_view().host);
        assert(r.storage_path@ =~= default_view().storage_path);
        assert(r.engine@ =~= default_view().engine);
        assert(r.replication.mqtt_broker@ =~= default_view().replication.mqtt_broker);
        assert(r.replication.topic_prefix@ =~= default_view().replication.topic_prefix);
        assert(r.replication.client_id@ =~= default_view().replication.client_id);
        r
    }
}

/// What is wrong with a field of a document.
#[derive(Debug, Clone, Copy, PartialEq, Eq, Structural)]
pub enum SchemaProblem {
    /// The field is required and the document does not hold it.
    Missing,
    /// The field holds a value of another kind than the record needs.
    WrongType,
    /// The field holds an integer that its type cannot hold.
    OutOfRange,
}

/// Why a configuration could not be resolved.
#[derive(Debug, Clone, PartialEq, Eq)]
pub enum LoadError {
    /// The document could not be read.
    IoError(String),
    /// The document is not valid TOML; the text describes the problem.
    ParseError(String),
    /// The document does not have the shape of the record; `field` is the
    /// dotted path of the offending field.
    SchemaError { field: String, problem: SchemaProblem },
}

/// Model of a `LoadError`.
pub enum ErrorView {
    Io(Seq<char>),
    Parse(Seq<char>),
    Schema(Seq<char>, SchemaProblem),
}

impl View for LoadError {
    type V = ErrorView;

    open spec fn view(&self) -> ErrorView {
        match self {
            LoadError::IoError(m) => ErrorView::Io(m@),
            LoadError::ParseError(m) => ErrorView::Parse(m@),
            LoadError::SchemaError { field, problem } => ErrorView::Schema(field@, *problem),
        }
    }
}

/// A field path and what is wrong with it.
pub type SchemaFault = (Seq<char>, SchemaProblem);

/// The scalar that a top-level key holds; a table stands where a scalar is
/// wanted as a value of another kind.
pub open spec fn top_scalar(m: Map<Seq<char>, SettingView>, k: Seq<char>) -> Option<ScalarView> {
    if m.contains_key(k) {
        match m[k] {
            SettingView::Value(v) => Some(v),
            SettingView::Table(_) => Some(ScalarView::Other),
        }
    } else {
        None
    }
}

/// The scalar that a key of a table holds.
pub open spec fn table_scalar(m: Map<Seq<char>, ScalarView>, k: Seq<char>) -> Option<ScalarView> {
    if m.contains_key(k) {
        Some(m[k])
    } else {
        None
    }
}

/// A required string field.
pub open spec fn text_of(v: Option<ScalarView>) -> Result<Seq<char>, SchemaProblem> {
    match v {
        None => Err(SchemaProblem::Missing),
        Some(ScalarView::Str(s)) => Ok(s),
        Some(_) => Err(SchemaProblem::WrongType),
    }
}

/// A string field that takes `default` when the document leaves it out.
pub open spec fn text_or(v: Option<ScalarView>, default: Seq<char>) -> Result<Seq<char>, SchemaProblem> {
    match v {
        None => Ok(default),
        _ => text_of(v),
    }
}

/// An optional string field; leaving it out is no error.
pub open spec fn optional_text_of(v: Option<ScalarView>) -> Result<Option<Seq<char>>, SchemaProblem> {
    match v {
        None => Ok(None),
        Some(ScalarView::Str(s)) => Ok(Some(s)),
        Some(_) => Err(SchemaProblem::WrongType),
    }
}

/// A required boolean field.
pub open spec fn flag_of(v: Option<ScalarView>) -> Result<bool, SchemaProblem> {
    match v {
        None => Err(SchemaProblem::Missing),
        Some(ScalarView::Bool(b)) => Ok(b),
        Some(_) => Err(SchemaProblem::WrongType),
    }
}

/// A required port number: an integer from 0 to 65535.
pub open spec fn port_of(v: Option<ScalarView>) -> Result<u16, SchemaProblem> {
    match v {
        None => Err(SchemaProblem::Missing),
        Some(ScalarView::Int(i)) => if 0 <= i <= u16::MAX {
            Ok(i as u16)
        } else {
            Err(SchemaProblem::OutOfRange)
        },
        Some(_) => Err(SchemaProblem::WrongType),
    }
}

/// A count of seconds: a non-negative integer, `default` when left out.
pub open spec fn seconds_or(v: Option<ScalarView>, default: u64) -> Result<u64, SchemaProblem> {
    match v {
        None => Ok(default),
        Some(ScalarView::Int(i)) => if 0 <= i {
            Ok(i as u64)
        } else {
            Err(SchemaProblem::OutOfRange)
        },
        Some(_) => Err(SchemaProblem::WrongType),
    }
}

/// Decodes the `[replication]` table. Fields are checked in the order of the
/// record; the first fault is reported.
pub open spec fn decode_replication_spec(t: Map<Seq<char>, ScalarView>) -> Result<ReplicationView, SchemaFault> {
    let enabled = flag_of(table_scalar(t, "enabled"@));
    let mqtt_broker = text_of(table_scalar(t, "mqtt_broker"@));
    let mqtt_port = port_of(table_scalar(t, "mqtt_port"@));
    let topic_prefix = text_of(table_scalar(t, "topic_prefix"@));
    let client_id = text_of(table_scalar(t, "client_id"@));
    let client_password = optional_text_of(table_scalar(t, "client_password"@));
    if enabled is Err {
        Err(("replication.enabled"@, enabled->Err_0))
    } else if mqtt_broker is Err {
        Err(("replication.mqtt_broker"@, mqtt_broker->Err_0))
    } else if mqtt_port is Err {
        Err(("replication.mqtt_port"@, mqtt_port->Err_0))
    } else if topic_prefix is Err {
        Err(("replication.topic_prefix"@, topic_prefix->Err_0))
    } else if client_id is Err {
        Err(("replication.client_id"@, client_id->Err_0))
    } else if client_password is Err {
        Err(("replication.client_password"@, client_password->Err_0))
    } else {
        Ok(ReplicationView {
            enabled: enabled->Ok_0,
            mqtt_broker: mqtt_broker->Ok_0,
            mqtt_port: mqtt_port->Ok_0,
            topic_prefix: topic_prefix->Ok_0,
            client_id: client_id->Ok_0,
            client_password: client_password->Ok_0,
        })
    }
}

/// Decodes a document into a record. `host`, `port` and the `[replication]`
/// table are required; `storage_path`, `engine` and `sync_interval_seconds`
/// take their baseline values when left out; unknown keys are ignored.
pub open spec fn decode_spec(m: Map<Seq<char>, SettingView>) -> Result<ConfigView, SchemaFault> {
    let host = text_of(top_scalar(m, "host"@));
    let port = port_of(top_scalar(m, "port"@));
    let storage_path = text_or(top_scalar(m, "storage_path"@), default_storage_path());
    let engine = text_or(top_scalar(m, "engine"@), default_engine());
    let sync = seconds_or(top_scalar(m, "sync_interval_seconds"@), DEFAULT_SYNC_INTERVAL_SECONDS);
    if host is Err {
        Err(("host"@, host->Err_0))
    } else if port is Err {
        Err(("port"@, port->Err_0))
    } else if storage_path is Err {
        Err(("storage_path"@, storage_path->Err_0))
    } else if engine is Err {
        Err(("engine"@, engine->Err_0))
    } else if !m.contains_key("replication"@) {
        Err(("replication"@, SchemaProblem::Missing))
    } else if m["replication"@] is Value {
        Err(("replication"@, SchemaProblem::WrongType))
    } else if decode_replication_spec(m["replication"@]->Table_0) is Err {
        Err(decode_replication_spec(m["replication"@]->Table_0)->Err_0)
    } else if sync is Err {
        Err(("sync_interval_seconds"@, sync->Err_0))
    } else {
        Ok(ConfigView {
            host: host->Ok_0,
            port: port->Ok_0,
            storage_path: storage_path->Ok_0,
            engine: engine->Ok_0,
            replication: decode_replication_spec(m["replication"@]->Table_0)->Ok_0,
            sync_interval_seconds: sync->Ok_0,
        })
    }
}

/// The model of a looked-up scalar.
pub open spec fn found_view(v: Option<&Scalar>) -> Option<ScalarView> {
    match v {
        Some(s) => Some(s@),
        None => None,
    }
}

/// The scalar under a top-level key; `other` stands for a table found there.
fn top_entry<'a>(doc: &'a Vec<(String, Setting)>, key: &str, other: &'a Scalar) -> (r: Option<&'a Scalar>)
    requires
        other@ == ScalarView::Other,
    ensures
        found_view(r) == top_scalar(document_view(doc@), key@),
{
    proof {
        lemma_last_index_to_map(setting_pairs(doc@), key@);
        assert(keys_of(doc@) =~= pair_keys(setting_pairs(doc@)));
    }
    match position(doc, key) {
        None => None,
        Some(i) => match &doc[i].1 {
            Setting::Value(v) => {
                assert(setting_pairs(doc@)[i as int] == (doc@[i as int].0@, doc@[i as int].1@));
                Some(v)
            },
            Setting::Table(_) => {
                assert(setting_pairs(doc@)[i as int] == (doc@[i as int].0@, doc@[i as int].1@));
                Some(other)
            },
        },
    }
}

/// The scalar under a key of a table.
fn table_entry<'a>(t: &'a Vec<(String, Scalar)>, key: &str) -> (r: Option<&'a Scalar>)
    ensures
        found_view(r) == table_scalar(to_map(scalar_pairs(t@)), key@),
{
    proof {
        lemma_last_index_to_map(scalar_pairs(t@), key@);
        assert(keys_of(t@) =~= pair_keys(scalar_pairs(t@)));
    }
    match position(t, key) {
        None => None,
        Some(i) => {
            assert(scalar_pairs(t@)[i as int] == (t@[i as int].0@, t@[i as int].1@));
            Some(&t[i].1)
        },
    }
}

fn read_text(v: Option<&Scalar>) -> (r: Result<String, SchemaProblem>)
    ensures
        match text_of(found_view(v)) {
            Ok(s) => r is Ok && r->Ok_0@ == s,
            Err(p) => r == Err::<String, SchemaProblem>(p),
        },
{
    match v {
        None => Err(SchemaProblem::Missing),
        Some(Scalar::Str(s)) => Ok(s.clone()),
        Some(_) => Err(SchemaProblem::WrongType),
    }
}

fn read_text_or(v: Option<&Scalar>, default: &str) -> (r: Result<String, SchemaProblem>)
    ensures
        match text_or(found_view(v), default@) {
            Ok(s) => r is Ok && r->Ok_0@ == s,
            Err(p) => r == Err::<String, SchemaProblem>(p),
        },
{
    match v {
        None => Ok(text(default)),
        _ => read_text(v),
    }
}

fn read_optional_text(v: Option<&Scalar>) -> (r: Result<Option<String>, SchemaProblem>)
    ensures
        match optional_text_of(found_view(v)) {
            Ok(s) => r is Ok && opt_text_view(r->Ok_0) == s,
            Err(p) => r == Err::<Option<String>, SchemaProblem>(p),
        },
{
    match v {
        None => Ok(None),
        Some(Scalar::Str(s)) => Ok(Some(s.clone())),
        Some(_) => Err(SchemaProblem::WrongType),
    }
}

fn read_flag(v: Option<&Scalar>) -> (r: Result<bool, SchemaProblem>)
    ensures
        r == flag_of(found_view(v)),
{
    match v {
        None => Err(SchemaProblem::Missing),
        Some(Scalar::Bool(b)) => Ok(*b),
        Some(_) => Err(SchemaProblem::WrongType),
    }
}

fn read_port(v: Option<&Scalar>) -> (r: Result<u16, SchemaProblem>)
    ensures
        r == port_of(found_view(v)),
{
    match v {
        None => Err(SchemaProblem::Missing),
        Some(Scalar::Int(i)) => if 0 <= *i && *i <= u16::MAX as i64 {
            Ok(*i as u16)
        } else {
            Err(SchemaProblem::OutOfRange)
        },
        Some(_) => Err(SchemaProblem::WrongType),
    }
}

fn read_seconds_or(v: Option<&Scalar>, default: u64) -> (r: Result<u64, SchemaProblem>)
    ensures
        r == seconds_or(found_view(v), default),
{
    match v {
        None => Ok(default),
        Some(Scalar::Int(i)) => if 0 <= *i {
            Ok(*i as u64)
        } else {
            Err(SchemaProblem::OutOfRange)
        },
        Some(_) => Err(SchemaProblem::WrongType),
    }
}

/// The model of a decoding outcome.
pub open spec fn outcome_view(r: Result<Config, LoadError>) -> Result<ConfigView, ErrorView> {
    match r {
        Ok(c) => Ok(c@),
        Err(e) => Err(e@),
    }
}

/// The model of a decoding outcome for the replication table.
pub open spec fn replication_outcome_view(r: Result<ReplicationConfig, LoadError>) -> Result<ReplicationView, ErrorView> {
    match r {
        Ok(c) => Ok(c@),
        Err(e) => Err(e@),
    }
}

/// The error model of a schema fault.
pub open spec fn fault_view(f: SchemaFault) -> ErrorView {
    ErrorView::Schema(f.0, f.1)
}

pub open spec fn decoded_view(r: Result<ConfigView, SchemaFault>) -> Result<ConfigView, ErrorView> {
    match r {
        Ok(c) => Ok(c),
        Err(f) => Err(fault_view(f)),
    }
}

fn schema_error(field: &str, problem: SchemaProblem) -> (r: LoadError)
    ensures
        r@ == ErrorView::Schema(field@, problem),
{
    LoadError::SchemaError { field: text(field), problem }
}

fn decode_replication(t: &Vec<(String, Scalar)>) -> (r: Result<ReplicationConfig, LoadError>)
    ensures
        replication_outcome_view(r) == (match decode_replication_spec(to_map(scalar_pairs(t@))) {
            Ok(c) => Ok(c),
            Err(f) => Err(fault_view(f)),
        }),
{
    let enabled = match read_flag(table_entry(t, "enabled")) {
        Ok(b) => b,
        Err(p) => return Err(schema_error("replication.enabled", p)),
    };
    let mqtt_broker = match read_text(table_entry(t, "mqtt_broker")) {
        Ok(s) => s,
        Err(p) => return Err(schema_error("replication.mqtt_broker", p)),
    };
    let mqtt_port = match read_port(table_entry(t, "mqtt_port")) {
        Ok(n) => n,
        Err(p) => return Err(schema_error("replication.mqtt_port", p)),
    };
    let topic_prefix = match read_text(table_entry(t, "topic_prefix")) {
        Ok(s) => s,
        Err(p) => return Err(schema_error("replication.topic_prefix", p)),
    };
    let client_id = match read_text(table_entry(t, "client_id")) {
        Ok(s) => s,
        Err(p) => return Err(schema_error("replication.client_id", p)),
    };
    let client_password = match read_optional_text(table_entry(t, "client_password")) {
        Ok(s) => s,
        Err(p) => return Err(schema_error("replication.client_password", p)),
    };
    Ok(ReplicationConfig { enabled, mqtt_broker, mqtt_port, topic_prefix, client_id, client_password })
}

/// The values taken from the environment, applied over a decoded record:
/// `CLIENT_ID` and `CLIENT_PASSWORD`, each `None` where the variable is unset.
#[derive(Debug, Clone)]
pub struct Overrides {
    pub client_id: Option<String>,
    pub client_password: Option<String>,
}

/// A record after the overrides: a present value replaces the field, an
/// absent one leaves it as it was.
pub open spec fn overridden(c: ConfigView, client_id: Option<Seq<char>>, client_password: Option<Seq<char>>) -> ConfigView {
    ConfigView {
        replication: ReplicationView {
            client_id: match client_id {
                Some(id) => id,
                None => c.replication.client_id,
            },
            client_password: match client_password {
                Some(p) => Some(p),
                None => c.replication.client_password,
            },
            ..c.replication
        },
        ..c
    }
}

/// What resolving a document gives: the decoded record with the overrides
/// applied, or the first schema fault.
pub open spec fn resolve_spec(
    m: Map<Seq<char>, SettingView>,
    client_id: Option<Seq<char>>,
    client_password: Option<Seq<char>>,
) -> Result<ConfigView, ErrorView> {
    match decode_spec(m) {
        Ok(c) => Ok(overridden(c, client_id, client_password)),
        Err(f) => Err(fault_view(f)),
    }
}

/// The document that encodes a record: every field under its key, the
/// password only where it is present.
pub open spec fn document_of(c: ConfigView) -> Map<Seq<char>, SettingView> {
    let r = c.replication;
    let t = Map::empty()
        .insert("enabled"@, ScalarView::Bool(r.enabled))
        .insert("mqtt_broker"@, ScalarView::Str(r.mqtt_broker))
        .insert("mqtt_port"@, ScalarView::Int(r.mqtt_port as int))
        .insert("topic_prefix"@, ScalarView::Str(r.topic_prefix))
        .insert("client_id"@, ScalarView::Str(r.client_id));
    let t = match r.client_password {
        Some(p) => t.insert("client_password"@, ScalarView::Str(p)),
        None => t,
    };
    Map::empty()
        .insert("host"@, SettingView::Value(ScalarView::Str(c.host)))
        .insert("port"@, SettingView::Value(ScalarView::Int(c.port as int)))
        .insert("storage_path"@, SettingView::Value(ScalarView::Str(c.storage_path)))
        .insert("engine"@, SettingView::Value(ScalarView::Str(c.engine)))
        .insert("sync_interval_seconds"@, SettingView::Value(ScalarView::Int(c.sync_interval_seconds as int)))
        .insert("replication"@, SettingView::Table(t))
}

impl Config {
    /// Resolves a configuration from the text of a TOML document and the
    /// environment's overrides. The text is parsed first, then decoded; the
    /// overrides apply only to a record that decoded.
    pub fn load(text: &str, overrides: Overrides) -> (r: Result<Config, LoadError>)
        ensures
            match toml_settings(text@) {
                None => r matches Err(LoadError::ParseError(_)),
                Some(m) => outcome_view(r) == resolve_spec(
                    m,
                    opt_text_view(overrides.client_id),
                    opt_text_view(overrides.client_password),
                ),
            },
    {
        let doc = match parse_toml(text) {
            Ok(d) => d,
            Err(e) => return Err(LoadError::ParseError(e.to_string())),
        };
        let mut config = match Config::from_document(&doc) {
            Ok(c) => c,
            Err(e) => return Err(e),
        };
        config.apply_overrides(overrides);
        Ok(config)
    }

    /// Applies the environment's overrides: each value that is present
    /// replaces its field, whatever the document said.
    pub fn apply_overrides(&mut self, overrides: Overrides)
        ensures
            final(self)@ == overridden(
                old(self)@,
                opt_text_view(overrides.client_id),
                opt_text_view(overrides.client_password),
            ),
    {
        if let Some(id) = overrides.client_id {
            self.replication.client_id = id;
        }
        if let Some(p) = overrides.client_password {
            self.replication.client_password = Some(p);
        }
    }

    /// Encodes the record as a document. TOML integers are 64-bit signed, so
    /// the sync interval must fit in one.
    pub fn to_document(&self) -> (r: Vec<(String, Setting)>)
        requires
            self.sync_interval_seconds <= i64::MAX,
        ensures
            document_view(r@) == document_of(self@),
    {
        let rep = &self.replication;
        let mut t: Vec<(String, Scalar)> = Vec::new();
        assert(to_map(scalar_pairs(t@)) == Map::<Seq<char>, ScalarView>::empty());
        push_scalar(&mut t, text("enabled"), Scalar::Bool(rep.enabled));
        push_scalar(&mut t, text("mqtt_broker"), Scalar::Str(rep.mqtt_broker.clone()));
        push_scalar(&mut t, text("mqtt_port"), Scalar::Int(rep.mqtt_port as i64));
        push_scalar(&mut t, text("topic_prefix"), Scalar::Str(rep.topic_prefix.clone()));
        push_scalar(&mut t, text("client_id"), Scalar::Str(rep.client_id.clone()));
        if let Some(p) = &rep.client_password {
            push_scalar(&mut t, text("client_password"), Scalar::Str(p.clone()));
        }
        let mut doc: Vec<(String, Setting)> = Vec::new();
        assert(document_view(doc@) == Map::<Seq<char>, SettingView>::empty());
        push_setting(&mut doc, text("host"), Setting::Value(Scalar::Str(self.host.clone())));
        push_setting(&mut doc, text("port"), Setting::Value(Scalar::Int(self.port as i64)));
        push_setting(&mut doc, text("storage_path"), Setting::Value(Scalar::Str(self.storage_path.clone())));
        push_setting(&mut doc, text("engine"), Setting::Value(Scalar::Str(self.engine.clone())));
        push_setting(
            &mut doc,
            text("sync_interval_seconds"),
            Setting::Value(Scalar::Int(self.sync_interval_seconds as i64)),
        );
        push_setting(&mut doc, text("replication"), Setting::Table(t));
        doc
    }

    /// Decodes a parsed document into a record, or names the first field
    /// that does not fit.
    pub fn from_document(doc: &Vec<(String, Setting)>) -> (r: Result<Config, LoadError>)
        ensures
            outcome_view(r) == decoded_view(decode_spec(document_view(doc@))),
    {
        let other = Scalar::Other;
        let host = match read_text(top_entry(doc, "host", &other)) {
            Ok(s) => s,
            Err(p) => return Err(schema_error("host", p)),
        };
        let port = match read_port(top_entry(doc, "port", &other)) {
            Ok(n) => n,
            Err(p) => return Err(schema_error("port", p)),
        };
        proof {
            reveal_strlit("data");
            reveal_strlit("rwlock");
            assert("data"@ =~= default_storage_path());
            assert("rwlock"@ =~= default_engine());
        }
        let storage_path = match read_text_or(top_entry(doc, "storage_path", &other), "data") {
            Ok(s) => s,
            Err(p) => return Err(schema_error("storage_path", p)),
        };
        let engine = match read_text_or(top_entry(doc, "engine", &other), "rwlock") {
            Ok(s) => s,
            Err(p) => return Err(schema_error("engine", p)),
        };
        proof {
            lemma_last_index_to_map(setting_pairs(doc@), "replication"@);
            assert(keys_of(doc@) =~= pair_keys(setting_pairs(doc@)));
        }
        let replication = match position(doc, "replication") {
            None => return Err(schema_error("replication", SchemaProblem::Missing)),
            Some(i) => match &doc[i].1 {
                Setting::Value(_) => {
                    assert(setting_pairs(doc@)[i as int] == (doc@[i as int].0@, doc@[i as int].1@));
                    return Err(schema_error("replication", SchemaProblem::WrongType));
                },
                Setting::Table(t) => {
                    assert(setting_pairs(doc@)[i as int] == (doc@[i as int].0@, doc@[i as int].1@));
                    match decode_replication(t) {
                        Ok(c) => c,
                        Err(e) => return Err(e),
                    }
                },
            },
        };
        let sync_interval_seconds = match read_seconds_or(
            top_entry(doc, "sync_interval_seconds", &other),
            DEFAULT_SYNC_INTERVAL_SECONDS,
        ) {
            Ok(n) => n,
            Err(p) => return Err(schema_error("sync_interval_seconds", p)),
        };
        Ok(Config { host, port, storage_path, engine, replication, sync_interval_seconds })
    }
}

} // verus!
