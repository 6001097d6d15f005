//! Bootstrap metadata import: a JSON document with two optional arrays,
//! `topics` and `upstreamClusters`, each element an object carrying
//! `apiVersion`, `kind`, `metadata` (with at least a `name`) and a
//! resource-specific `spec` payload that the core treats as opaque.
//!
//! The document's text is turned into a plain JSON tree by serde_json behind
//! trusted items; everything after that — the schema of the import, its
//! required fields, its defaults — is verified code over that tree. A
//! malformed document or a missing required field fails the whole import;
//! partial import is not supported.

use vstd::prelude::*;

use crate::store::str_eq;

verus! {

broadcast use vstd::string::group_string_axioms;

/// A plain JSON value. Numbers stay in serde_json's representation and are
/// carried through opaquely: the import schema never reads one.
#[derive(Debug)]
pub enum Json {
    Null,
    Bool(bool),
    Num(serde_json::Number),
    Str(String),
    Arr(Vec<Json>),
    Obj(Vec<(String, Json)>),
}

/// Declares serde_json's value type, so that values of it can pass through
/// signatures; the library never looks inside one.
#[verifier::external_type_specification]
#[verifier::external_body]
pub struct ExValue(serde_json::Value);

/// Declares serde_json's number type, carried opaquely inside `Json`.
#[verifier::external_type_specification]
#[verifier::external_body]
pub struct ExNumber(serde_json::Number);

/// The JSON tree a document's text stands for, if the text is well-formed
/// JSON: what `serde_json::from_str` followed by the fixed conversion of
/// `serde_json::Value` yields, a function of the characters alone.
pub uninterp spec fn json_doc_of(s: Seq<char>) -> Option<Json>;

/// The plain tree a `serde_json::Value` holds.
pub uninterp spec fn json_model(v: serde_json::Value) -> Json;

/// Relies on `serde_json::Value`'s six variants: each arm moves one
/// variant's content into the plain tree, arrays and objects element by
/// element.
#[verifier::external_body]
fn value_to_json(v: serde_json::Value) -> (j: Json)
    ensures
        j == json_model(v),
{
    match v {
        serde_json::Value::Null => Json::Null,
        serde_json::Value::Bool(b) => Json::Bool(b),
        serde_json::Value::Number(n) => Json::Num(n),
        serde_json::Value::String(s) => Json::Str(s),
        serde_json::Value::Array(a) => Json::Arr(a.into_iter().map(value_to_json).collect()),
        serde_json::Value::Object(m) => Json::Obj(
            m.into_iter().map(|p| (p.0, value_to_json(p.1))).collect(),
        ),
    }
}

/// Relies on `serde_json::from_str::<Value>`: whether a string is
/// well-formed JSON, and which document it stands for, depend on the
/// characters alone.
#[verifier::external_body]
fn parse_value(s: &str) -> (r: Option<serde_json::Value>)
    ensures
        (r is Some) == (json_doc_of(s@) is Some),
        r matches Some(v) ==> Some(json_model(v)) == json_doc_of(s@),
{
    serde_json::from_str(s).ok()
}

/// Parses a document's text into its plain JSON tree; `None` exactly when
/// the text is not well-formed JSON.
pub fn parse_json(s: &str) -> (r: Option<Json>)
    ensures
        r == json_doc_of(s@),
{
    match parse_value(s) {
        Some(v) => Some(value_to_json(v)),
        None => None,
    }
}

/// First binding of `key` among an object's fields, in field order.
pub open spec fn obj_lookup(fields: Seq<(String, Json)>, key: Seq<char>) -> Option<Json>
    decreases fields.len(),
{
    if fields.len() == 0 {
        None
    } else if fields[0].0@ == key {
        Some(fields[0].1)
    } else {
        obj_lookup(fields.drop_first(), key)
    }
}

/// Why a bootstrap import failed.
#[derive(Debug, Clone, Copy, PartialEq, Eq, Structural)]
pub enum ImportError {
    /// The document's text is not well-formed JSON.
    Syntax,
    /// The document does not fit the import schema: a wrongly-typed array,
    /// or an element missing a required field.
    Schema,
}

/// Metadata of one imported object; the import requires at least a name.
#[derive(Debug)]
pub struct ObjectMeta {
    pub name: String,
}

/// One object as the backing coordinator holds it: declared version and
/// kind, metadata, the resource-specific spec, and an optional status.
#[derive(Debug)]
pub struct K8Obj<S> {
    pub api_version: String,
    pub kind: String,
    pub metadata: ObjectMeta,
    pub spec: S,
    pub status: Option<String>,
}

/// One object as it is exported or imported: as `K8Obj`, without the
/// status.
#[derive(Debug)]
pub struct K8ObjExport<S> {
    pub api_version: String,
    pub kind: String,
    pub metadata: ObjectMeta,
    pub spec: S,
}

impl<S> From<K8Obj<S>> for K8ObjExport<S> {
    /// Drops the status and keeps everything else.
    fn from(obj: K8Obj<S>) -> (r: K8ObjExport<S>) {
        K8ObjExport {
            api_version: obj.api_version,
            kind: obj.kind,
            metadata: obj.metadata,
            spec: obj.spec,
        }
    }
}

impl<S> vstd::std_specs::convert::FromSpecImpl<K8Obj<S>> for K8ObjExport<S> {
    open spec fn obeys_from_spec() -> bool {
        true
    }

    open spec fn from_spec(obj: K8Obj<S>) -> K8ObjExport<S> {
        K8ObjExport {
            api_version: obj.api_version,
            kind: obj.kind,
            metadata: obj.metadata,
            spec: obj.spec,
        }
    }
}

/// Mathematical image of one imported entry.
pub struct EntryV {
    pub api_version: Seq<char>,
    pub kind: Seq<char>,
    pub name: Seq<char>,
    pub spec: Json,
}

/// The image of a held object.
pub open spec fn entry_of_obj(o: K8Obj<Json>) -> EntryV {
    EntryV {
        api_version: o.api_version@,
        kind: o.kind@,
        name: o.metadata.name@,
        spec: o.spec,
    }
}

/// The entry an element of an import array stands for: the element must be
/// an object with string `apiVersion` and `kind`, a `metadata` object with
/// a string `name`, and a `spec` payload of any shape; anything else is no
/// entry. Unknown fields are ignored.
pub open spec fn spec_parse_entry(j: Json) -> Option<EntryV> {
    match j {
        Json::Obj(fields) => {
            let api = obj_lookup(fields@, "apiVersion"@);
            let kind = obj_lookup(fields@, "kind"@);
            let meta = obj_lookup(fields@, "metadata"@);
            let sp = obj_lookup(fields@, "spec"@);
            match (api, kind, meta, sp) {
                (
                    Some(Json::Str(av)),
                    Some(Json::Str(kv)),
                    Some(Json::Obj(mf)),
                    Some(spv),
                ) => match obj_lookup(mf@, "name"@) {
                    Some(Json::Str(nm)) => Some(
                        EntryV { api_version: av@, kind: kv@, name: nm@, spec: spv },
                    ),
                    _ => None,
                },
                _ => None,
            }
        },
        _ => None,
    }
}

/// The entries an import array stands for; one bad element fails them all.
pub open spec fn spec_parse_entries(elems: Seq<Json>) -> Option<Seq<EntryV>>
    decreases elems.len(),
{
    if elems.len() == 0 {
        Some(Seq::empty())
    } else {
        match (spec_parse_entry(elems[0]), spec_parse_entries(elems.drop_first())) {
            (Some(e), Some(rest)) => Some(seq![e] + rest),
            _ => None,
        }
    }
}

/// What a whole import document stands for: its topic entries and its
/// upstream-cluster entries. The two arrays are optional and default to
/// empty; a `topics` or `upstreamClusters` binding that is not an array, or
/// a bad element, is no import.
pub open spec fn spec_import(doc: Json) -> Option<(Seq<EntryV>, Seq<EntryV>)> {
    match doc {
        Json::Obj(fields) => {
            let t = obj_lookup(fields@, "topics"@);
            let u = obj_lookup(fields@, "upstreamClusters"@);
            let te = match t {
                Option::None => Some(Seq::<Json>::empty()),
                Option::Some(Json::Arr(v)) => Some(v@),
                Option::Some(_) => None,
            };
            let ue = match u {
                Option::None => Some(Seq::<Json>::empty()),
                Option::Some(Json::Arr(v)) => Some(v@),
                Option::Some(_) => None,
            };
            match (te, ue) {
                (Some(ts), Some(us)) => match (spec_parse_entries(ts), spec_parse_entries(us)) {
                    (Some(a), Some(b)) => Some((a, b)),
                    _ => None,
                },
                _ => None,
            }
        },
        _ => None,
    }
}

/// Splits an object's fields into the two top-level bindings the import
/// reads, by first match in field order.
fn split_top(fields: Vec<(String, Json)>) -> (r: (Option<Json>, Option<Json>))
    ensures
        r.0 == obj_lookup(fields@, "topics"@),
        r.1 == obj_lookup(fields@, "upstreamClusters"@),
{
    let ghost all: Seq<(String, Json)> = fields@;
    let mut rest: Vec<(String, Json)> = fields;
    let mut t: Option<Json> = None;
    let mut u: Option<Json> = None;
    while rest.len() > 0
        invariant
            all == fields@,
            (match t {
                Some(v) => obj_lookup(all, "topics"@) == Some(v),
                None => obj_lookup(all, "topics"@) == obj_lookup(rest@, "topics"@),
            }),
            (match u {
                Some(v) => obj_lookup(all, "upstreamClusters"@) == Some(v),
                None => obj_lookup(all, "upstreamClusters"@) == obj_lookup(
                    rest@,
                    "upstreamClusters"@,
                ),
            }),
        decreases rest.len(),
    {
        let ghost pre: Seq<(String, Json)> = rest@;
        let (k, v) = rest.remove(0);
        proof {
            assert(rest@ =~= pre.drop_first());
            reveal_strlit("topics");
            reveal_strlit("upstreamClusters");
            assert("topics"@.len() == 6);
            assert("upstreamClusters"@.len() == 16);
            assert("topics"@ != "upstreamClusters"@);
        }
        if t.is_none() && str_eq(k.as_str(), "topics") {
            t = Some(v);
        } else if u.is_none() && str_eq(k.as_str(), "upstreamClusters") {
            u = Some(v);
        }
    }
    (t, u)
}

/// Splits an entry object's fields into the four bindings an entry needs,
/// by first match in field order.
fn split_entry_fields(fields: Vec<(String, Json)>) -> (r: (
    Option<Json>,
    Option<Json>,
    Option<Json>,
    Option<Json>,
))
    ensures
        r.0 == obj_lookup(fields@, "apiVersion"@),
        r.1 == obj_lookup(fields@, "kind"@),
        r.2 == obj_lookup(fields@, "metadata"@),
        r.3 == obj_lookup(fields@, "spec"@),
{
    let ghost all: Seq<(String, Json)> = fields@;
    let mut rest: Vec<(String, Json)> = fields;
    let mut api: Option<Json> = None;
    let mut kind: Option<Json> = None;
    let mut meta: Option<Json> = None;
    let mut sp: Option<Json> = None;
    while rest.len() > 0
        invariant
            all == fields@,
            (match api {
                Some(v) => obj_lookup(all, "apiVersion"@) == Some(v),
                None => obj_lookup(all, "apiVersion"@) == obj_lookup(rest@, "apiVersion"@),
            }),
            (match kind {
                Some(v) => obj_lookup(all, "kind"@) == Some(v),
                None => obj_lookup(all, "kind"@) == obj_lookup(rest@, "kind"@),
            }),
            (match meta {
                Some(v) => obj_lookup(all, "metadata"@) == Some(v),
                None => obj_lookup(all, "metadata"@) == obj_lookup(rest@, "metadata"@),
            }),
            (match sp {
                Some(v) => obj_lookup(all, "spec"@) == Some(v),
                None => obj_lookup(all, "spec"@) == obj_lookup(rest@, "spec"@),
            }),
        decreases rest.len(),
    {
        let ghost pre: Seq<(String, Json)> = rest@;
        let (k, v) = rest.remove(0);
        proof {
            assert(rest@ =~= pre.drop_first());
            reveal_strlit("apiVersion");
            reveal_strlit("kind");
            reveal_strlit("metadata");
            reveal_strlit("spec");
            assert("apiVersion"@.len() == 10);
            assert("kind"@.len() == 4);
            assert("metadata"@.len() == 8);
            assert("spec"@.len() == 4);
            assert("kind"@[0] == 'k' && "spec"@[0] == 's');
            assert("apiVersion"@ != "kind"@ && "apiVersion"@ != "metadata"@ && "apiVersion"@
                != "spec"@);
            assert("kind"@ != "metadata"@ && "kind"@ != "spec"@);
            assert("metadata"@ != "spec"@);
        }
        if api.is_none() && str_eq(k.as_str(), "apiVersion") {
            api = Some(v);
        } else if kind.is_none() && str_eq(k.as_str(), "kind") {
            kind = Some(v);
        } else if meta.is_none() && str_eq(k.as_str(), "metadata") {
            meta = Some(v);
        } else if sp.is_none() && str_eq(k.as_str(), "spec") {
            sp = Some(v);
        }
    }
    (api, kind, meta, sp)
}

/// The `name` binding of a metadata object, by first match in field order.
fn split_meta(fields: Vec<(String, Json)>) -> (r: Option<Json>)
    ensures
        r == obj_lookup(fields@, "name"@),
{
    let ghost all: Seq<(String, Json)> = fields@;
    let mut rest: Vec<(String, Json)> = fields;
    let mut name: Option<Json> = None;
    while rest.len() > 0
        invariant
            all == fields@,
            (match name {
                Some(v) => obj_lookup(all, "name"@) == Some(v),
                None => obj_lookup(all, "name"@) == obj_lookup(rest@, "name"@),
            }),
        decreases rest.len(),
    {
        let ghost pre: Seq<(String, Json)> = rest@;
        let (k, v) = rest.remove(0);
        proof {
            assert(rest@ =~= pre.drop_first());
        }
        if name.is_none() && str_eq(k.as_str(), "name") {
            name = Some(v);
        }
    }
    name
}

/// Parses one element of an import array into a held object with no status.
fn parse_entry(j: Json) -> (r: Option<K8Obj<Json>>)
    ensures
        match r {
            Some(o) => spec_parse_entry(j) == Some(entry_of_obj(o)) && o.status is None,
            None => spec_parse_entry(j) is None,
        },
{
    match j {
        Json::Obj(fields) => {
            let (api, kind, meta, sp) = split_entry_fields(fields);
            match (api, kind, meta, sp) {
                (
                    Some(Json::Str(av)),
                    Some(Json::Str(kv)),
                    Some(Json::Obj(mf)),
                    Some(spec_payload),
                ) => {
                    match split_meta(mf) {
                        Some(Json::Str(nm)) => Some(
                            K8Obj {
                                api_version: av,
                                kind: kv,
                                metadata: ObjectMeta { name: nm },
                                spec: spec_payload,
                                status: None,
                            },
                        ),
                        _ => None,
                    }
                },
                _ => None,
            }
        },
        _ => None,
    }
}

/// Parses every element of an import array; one bad element fails the
/// whole array.
fn parse_entries(elems: Vec<Json>) -> (r: Option<Vec<K8Obj<Json>>>)
    ensures
        match r {
            Some(objs) => spec_parse_entries(elems@) == Some(
                objs@.map_values(|o: K8Obj<Json>| entry_of_obj(o)),
            ),
            None => spec_parse_entries(elems@) is None,
        },
{
    let ghost all: Seq<Json> = elems@;
    let mut rest: Vec<Json> = elems;
    let mut out: Vec<K8Obj<Json>> = Vec::new();
    while rest.len() > 0
        invariant
            all == elems@,
            (match spec_parse_entries(rest@) {
                Some(tail) => spec_parse_entries(all) == Some(
                    out@.map_values(|o: K8Obj<Json>| entry_of_obj(o)) + tail,
                ),
                None => spec_parse_entries(all) is None,
            }),
        decreases rest.len(),
    {
        let ghost pre: Seq<Json> = rest@;
        let ghost pre_out: Seq<K8Obj<Json>> = out@;
        let elem = rest.remove(0);
        proof {
            assert(rest@ =~= pre.drop_first());
        }
        match parse_entry(elem) {
            Some(o) => {
                out.push(o);
                proof {
                    let f = |x: K8Obj<Json>| entry_of_obj(x);
                    assert(out@.map_values(f) =~= pre_out.map_values(f) + seq![entry_of_obj(o)]);
                    match spec_parse_entries(rest@) {
                        Some(tail) => {
                            assert((pre_out.map_values(f) + seq![entry_of_obj(o)]) + tail
                                =~= pre_out.map_values(f) + (seq![entry_of_obj(o)] + tail));
                        },
                        None => {},
                    }
                }
            },
            None => {
                proof {
                    assert(elem == pre[0]);
                    assert(spec_parse_entries(pre) is None);
                    assert(spec_parse_entries(all) is None);
                }
                return None;
            },
        }
    }
    proof {
        assert(spec_parse_entries(rest@) == Some(Seq::<EntryV>::empty()));
        let f = |x: K8Obj<Json>| entry_of_obj(x);
        assert(out@.map_values(f) + Seq::<EntryV>::empty() =~= out@.map_values(f));
    }
    Some(out)
}

/// The bootstrap metadata read from an import document: topics and upstream
/// clusters, with opaque spec payloads.
#[derive(Debug)]
pub struct EdgeMetadata {
    pub topics: Vec<K8Obj<Json>>,
    pub upstream_clusters: Vec<K8Obj<Json>>,
}

impl EdgeMetadata {
    /// The validation hook run after parsing; reserved for future
    /// constraints, it accepts every parsed document.
    pub fn validate(&self) -> (r: Result<(), ImportError>)
        ensures
            r is Ok,
    {
        Ok(())
    }
}

/// The images of a metadata value's two entry lists.
pub open spec fn spec_edge_entries(m: EdgeMetadata) -> (Seq<EntryV>, Seq<EntryV>) {
    (
        m.topics@.map_values(|o: K8Obj<Json>| entry_of_obj(o)),
        m.upstream_clusters@.map_values(|o: K8Obj<Json>| entry_of_obj(o)),
    )
}

/// Bootstrap metadata as read from a file's text.
#[derive(Debug)]
pub struct EdgeMetadataFile(pub EdgeMetadata);

impl EdgeMetadataFile {
    /// Parses an import document: its text must be well-formed JSON fitting
    /// the import schema, and the no-op validation hook must accept it.
    /// `Syntax` names a text that is not JSON; `Schema` a document that
    /// does not fit.
    pub fn from_json(json: &str) -> (r: Result<EdgeMetadataFile, ImportError>)
        ensures
            match r {
                Ok(f) => json_doc_of(json@) matches Some(doc) && spec_import(doc) == Some(
                    spec_edge_entries(f.0),
                ),
                Err(ImportError::Syntax) => json_doc_of(json@) is None,
                Err(ImportError::Schema) => json_doc_of(json@) matches Some(doc) && spec_import(
                    doc,
                ) is None,
            },
    {
        let doc = match parse_json(json) {
            Some(doc) => doc,
            None => {
                return Err(ImportError::Syntax);
            },
        };
        match doc {
            Json::Obj(fields) => {
                let (t, u) = split_top(fields);
                let telems: Vec<Json> = match t {
                    Option::None => Vec::new(),
                    Option::Some(Json::Arr(v)) => v,
                    Option::Some(_) => {
                        return Err(ImportError::Schema);
                    },
                };
                let uelems: Vec<Json> = match u {
                    Option::None => Vec::new(),
                    Option::Some(Json::Arr(v)) => v,
                    Option::Some(_) => {
                        return Err(ImportError::Schema);
                    },
                };
                let topics = match parse_entries(telems) {
                    Some(objs) => objs,
                    None => {
                        return Err(ImportError::Schema);
                    },
                };
                let upstream_clusters = match parse_entries(uelems) {
                    Some(objs) => objs,
                    None => {
                        return Err(ImportError::Schema);
                    },
                };
                let config = EdgeMetadata { topics, upstream_clusters };
                match config.validate() {
                    Ok(()) => Ok(EdgeMetadataFile(config)),
                    Err(e) => Err(e),
                }
            },
            _ => Err(ImportError::Schema),
        }
    }

    /// The metadata read from the file.
    pub fn inner(&self) -> (r: &EdgeMetadata)
        ensures
            *r == self.0,
    {
        &self.0
    }
}

impl From<EdgeMetadataFile> for EdgeMetadata {
    /// Unwraps the file's metadata.
    fn from(file: EdgeMetadataFile) -> (r: EdgeMetadata) {
        file.0
    }
}

impl vstd::std_specs::convert::FromSpecImpl<EdgeMetadataFile> for EdgeMetadata {
    open spec fn obeys_from_spec() -> bool {
        true
    }

    open spec fn from_spec(file: EdgeMetadataFile) -> EdgeMetadata {
        file.0
    }
}

/// Bootstrap metadata as it is exported: the same entries without their
/// statuses.
#[derive(Debug)]
pub struct EdgeMetadataExport {
    pub topics: Vec<K8ObjExport<Json>>,
    pub upstream_clusters: Vec<K8ObjExport<Json>>,
}

/// The export image of a held object.
pub open spec fn spec_export_obj(o: K8Obj<Json>) -> K8ObjExport<Json> {
    K8ObjExport { api_version: o.api_version, kind: o.kind, metadata: o.metadata, spec: o.spec }
}

/// Converts held objects to their exports, in order.
fn export_objs(objs: Vec<K8Obj<Json>>) -> (r: Vec<K8ObjExport<Json>>)
    ensures
        r@ == objs@.map_values(|o: K8Obj<Json>| spec_export_obj(o)),
{
    let ghost all: Seq<K8Obj<Json>> = objs@;
    let mut rest: Vec<K8Obj<Json>> = objs;
    let mut out: Vec<K8ObjExport<Json>> = Vec::new();
    while rest.len() > 0
        invariant
            all == objs@,
            all.map_values(|o: K8Obj<Json>| spec_export_obj(o)) == out@ + rest@.map_values(
                |o: K8Obj<Json>| spec_export_obj(o),
            ),
        decreases rest.len(),
    {
        let ghost pre: Seq<K8Obj<Json>> = rest@;
        let ghost pre_out: Seq<K8ObjExport<Json>> = out@;
        let obj = rest.remove(0);
        proof {
            assert(rest@ =~= pre.drop_first());
        }
        let exported: K8ObjExport<Json> = K8ObjExport::from(obj);
        out.push(exported);
        proof {
            let f = |o: K8Obj<Json>| spec_export_obj(o);
            assert(pre.map_values(f) =~= seq![f(pre[0])] + pre.drop_first().map_values(f));
            assert(out@ =~= pre_out + seq![exported]);
            assert((pre_out + seq![exported]) + rest@.map_values(f) =~= pre_out + (seq![
                exported,
            ] + rest@.map_values(f)));
        }
    }
    proof {
        assert(rest@.map_values(|o: K8Obj<Json>| spec_export_obj(o)) =~= Seq::<
            K8ObjExport<Json>,
        >::empty());
        assert(out@ + Seq::<K8ObjExport<Json>>::empty() =~= out@);
    }
    out
}

impl EdgeMetadataExport {
    /// Builds the export of held topics and upstream clusters: each object
    /// keeps its fields and loses its status, in order.
    pub fn new(topics: Vec<K8Obj<Json>>, upstream_clusters: Vec<K8Obj<Json>>) -> (r:
        EdgeMetadataExport)
        ensures
            r.topics@ == topics@.map_values(|o: K8Obj<Json>| spec_export_obj(o)),
            r.upstream_clusters@ == upstream_clusters@.map_values(
                |o: K8Obj<Json>| spec_export_obj(o),
            ),
    {
        EdgeMetadataExport {
            topics: export_objs(topics),
            upstream_clusters: export_objs(upstream_clusters),
        }
    }
}

} // verus!
