//! Properties that relate the operations on a node's configuration.
use crate::document::{ScalarView, SettingView};
use crate::node::{
    decode_spec, default_view, document_of, resolve_spec, top_scalar, Config, ConfigView,
    ErrorView, SchemaFault, SchemaProblem,
};
use vstd::prelude::*;

verus! {

/// The baseline record is one record: any two results of `Config::default`
/// are equal, and neither has a client password.
pub proof fn lemma_default_deterministic(a: Config, b: Config)
    requires
        a@ == default_view(),
        b@ == default_view(),
    ensures
        a@ == b@,
        a@.replication.client_password is None,
{
}

/// Encoding a record as a document and decoding that document gives back the
/// same record, field for field, with the password present or absent as it
/// was; with no overrides, resolving the document gives the record too.
pub proof fn lemma_document_round_trip(c: ConfigView)
    requires
        c.sync_interval_seconds <= i64::MAX,
    ensures
        decode_spec(document_of(c)) == Ok::<ConfigView, SchemaFault>(c),
        resolve_spec(document_of(c), None, None) == Ok::<ConfigView, ErrorView>(c),
{
    reveal_strlit("host");
    reveal_strlit("port");
    reveal_strlit("storage_path");
    reveal_strlit("engine");
    reveal_strlit("sync_interval_seconds");
    reveal_strlit("replication");
    reveal_strlit("enabled");
    reveal_strlit("mqtt_broker");
    reveal_strlit("mqtt_port");
    reveal_strlit("topic_prefix");
    reveal_strlit("client_id");
    reveal_strlit("client_password");
    assert("storage_path"@.len() == 12 && "engine"@.len() == 6);
    assert("sync_interval_seconds"@.len() == 21 && "replication"@.len() == 11);
    assert("enabled"@.len() == 7 && "mqtt_broker"@.len() == 11 && "mqtt_port"@.len() == 9);
    assert("topic_prefix"@.len() == 12 && "client_id"@.len() == 9);
    assert("client_password"@.len() == 15);
    assert("host"@[0] != "port"@[0]);
    assert("mqtt_port"@[0] != "client_id"@[0]);
    assert("mqtt_broker"@[0] != "replication"@[0]);
    let m = document_of(c);
    let t = m["replication"@]->Table_0;
    assert(top_scalar(m, "host"@) == Some(ScalarView::Str(c.host)));
    assert(top_scalar(m, "port"@) == Some(ScalarView::Int(c.port as int)));
    assert(top_scalar(m, "storage_path"@) == Some(ScalarView::Str(c.storage_path)));
    assert(top_scalar(m, "engine"@) == Some(ScalarView::Str(c.engine)));
    assert(top_scalar(m, "sync_interval_seconds"@) == Some(
        ScalarView::Int(c.sync_interval_seconds as int),
    ));
    assert(t["enabled"@] == ScalarView::Bool(c.replication.enabled));
    assert(t["mqtt_broker"@] == ScalarView::Str(c.replication.mqtt_broker));
    assert(t["mqtt_port"@] == ScalarView::Int(c.replication.mqtt_port as int));
    assert(t["topic_prefix"@] == ScalarView::Str(c.replication.topic_prefix));
    assert(t["client_id"@] == ScalarView::Str(c.replication.client_id));
    let d = decode_spec(m);
    assert(d is Ok);
    assert(d->Ok_0.replication == c.replication);
}

/// A `CLIENT_ID` value wins over the document's client id.
pub proof fn lemma_override_precedence(
    m: Map<Seq<char>, SettingView>,
    client_id: Seq<char>,
    client_password: Option<Seq<char>>,
)
    requires
        decode_spec(m) is Ok,
    ensures
        resolve_spec(m, Some(client_id), client_password) matches Ok(c) && c.replication.client_id
            == client_id,
{
}

/// A `CLIENT_PASSWORD` value alone sets the password, present from then on,
/// and leaves the client id as the document gave it.
pub proof fn lemma_override_independence(m: Map<Seq<char>, SettingView>, client_password: Seq<char>)
    requires
        decode_spec(m) is Ok,
    ensures
        resolve_spec(m, None, Some(client_password)) matches Ok(c) && c.replication.client_id
            == decode_spec(m)->Ok_0.replication.client_id && c.replication.client_password == Some(
            client_password,
        ),
{
}

/// A document without `client_password` and no `CLIENT_PASSWORD` value give
/// a record whose password is absent.
pub proof fn lemma_absence_preserved(m: Map<Seq<char>, SettingView>, client_id: Option<Seq<char>>)
    requires
        decode_spec(m) is Ok,
        !m["replication"@]->Table_0.contains_key("client_password"@),
    ensures
        resolve_spec(m, client_id, None) matches Ok(c) && c.replication.client_password is None,
{
}

/// A document without `port` fails with a schema error that names `port`,
/// and gives no record.
pub proof fn lemma_missing_port(
    m: Map<Seq<char>, SettingView>,
    client_id: Option<Seq<char>>,
    client_password: Option<Seq<char>>,
)
    requires
        !m.contains_key("port"@),
        top_scalar(m, "host"@) matches Some(ScalarView::Str(_)),
    ensures
        resolve_spec(m, client_id, client_password) == Err::<ConfigView, ErrorView>(
            ErrorView::Schema("port"@, SchemaProblem::Missing),
        ),
{
}

} // verus!
