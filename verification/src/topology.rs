//! The topology fetcher's data path: deriving the admin endpoint from the
//! configured cluster address, checking the `pools/default` payload against
//! its fixed schema, and rendering one record per node.
//!
//! The HTTP GET itself is the caller's business; everything from the response
//! body's JSON value to the per-node records is decided — and verified —
//! here.

use vstd::prelude::*;
use vstd::string::StrSliceExecFns;
use vstd::string::StringExecFns;
use crate::json::{JsonSpec, JsonValue, arr_spec, jspec, lookup, obj_fields_spec, spec_lookup};
use crate::service::{ServiceKind, join_spec, join_services, kind_of_code};
use crate::value::{SValue, StructuredValue, sspec};

verus! {

/// The response body does not match the `pools/default` schema — an unknown
/// service code included. The whole fetch fails; no partial node list is
/// ever returned.
#[derive(Debug, PartialEq, Eq, Structural)]
pub struct SchemaError;

impl SchemaError {
    /// A human-readable description for the shell.
    pub fn message(&self) -> (r: String)
        ensures
            r@ == "response does not match the pools/default schema"@,
    {
        "response does not match the pools/default schema".to_owned()
    }
}

/// The cluster address with the one known connection-string scheme prefix
/// removed; an address without that prefix passes through unchanged.
///
/// This is an exact-match strip of a fixed prefix, not URI parsing: a
/// knowingly fragile heuristic, kept because the admin endpoint is reached
/// over plain HTTP on a fixed port whatever the connection string says.
pub open spec fn stripped_spec(a: Seq<char>) -> Seq<char> {
    let p = "couchbase://"@;
    if a.len() >= p.len() && a.subrange(0, p.len() as int) == p {
        a.subrange(p.len() as int, a.len() as int)
    } else {
        a
    }
}

/// Strip the connection-string scheme prefix from a cluster address.
pub fn strip_scheme(addr: &str) -> (r: String)
    ensures
        r@ == stripped_spec(addr@),
{
    let p = "couchbase://";
    let plen = p.unicode_len();
    let alen = addr.unicode_len();
    if alen >= plen {
        let head = addr.substring_char(0, plen);
        if crate::service::str_eq(head, p) {
            let tail = addr.substring_char(plen, alen);
            return tail.to_owned();
        }
    }
    addr.to_owned()
}

/// The admin endpoint URL for a cluster address: plain HTTP against the
/// fixed administrative port.
pub open spec fn admin_url_spec(a: Seq<char>) -> Seq<char> {
    "http://"@ + stripped_spec(a) + ":8091/pools/default"@
}

/// Build the admin endpoint URL for the topology fetch.
pub fn admin_url(addr: &str) -> (r: String)
    ensures
        r@ == admin_url_spec(addr@),
{
    let mut s = "http://".to_owned();
    let host = strip_scheme(addr);
    s.append(host.as_str());
    s.append(":8091/pools/default");
    s
}

/// One node of the cluster, as the admin payload describes it.
#[derive(Debug, PartialEq)]
pub struct NodeInfo {
    pub hostname: String,
    pub status: String,
    pub services: Vec<ServiceKind>,
    pub version: String,
    pub os: String,
    pub memory_total: u64,
    pub memory_free: u64,
}

/// Mathematical model of a node description.
#[verifier::ext_equal]
pub struct NodeSpec {
    pub hostname: Seq<char>,
    pub status: Seq<char>,
    pub services: Seq<ServiceKind>,
    pub version: Seq<char>,
    pub os: Seq<char>,
    pub memory_total: int,
    pub memory_free: int,
}

impl View for NodeInfo {
    type V = NodeSpec;

    open spec fn view(&self) -> NodeSpec {
        NodeSpec {
            hostname: self.hostname@,
            status: self.status@,
            services: self.services@,
            version: self.version@,
            os: self.os@,
            memory_total: self.memory_total as int,
            memory_free: self.memory_free as int,
        }
    }
}

/// A required string field of an object.
pub open spec fn str_field(fields: Seq<(Seq<char>, JsonSpec)>, name: Seq<char>) -> Option<Seq<char>> {
    match spec_lookup(fields, name) {
        Some(JsonSpec::Str(t)) => Some(t),
        _ => None,
    }
}

/// A required integer field that must fit an unsigned 64-bit count.
pub open spec fn u64_field(fields: Seq<(Seq<char>, JsonSpec)>, name: Seq<char>) -> Option<int> {
    match spec_lookup(fields, name) {
        Some(JsonSpec::Int(i)) => if 0 <= i <= u64::MAX {
            Some(i)
        } else {
            None
        },
        _ => None,
    }
}

/// A required array field of an object.
pub open spec fn arr_field(fields: Seq<(Seq<char>, JsonSpec)>, name: Seq<char>) -> Option<
    Seq<JsonSpec>,
> {
    match spec_lookup(fields, name) {
        Some(JsonSpec::Arr(items)) => Some(items),
        _ => None,
    }
}

/// Every element is a string bearing a known service code.
pub open spec fn services_ok(items: Seq<JsonSpec>) -> bool {
    forall|i: int|
        0 <= i < items.len() ==> (#[trigger] items[i]) is Str && kind_of_code(
            items[i]->Str_0,
        ) is Some
}

/// The service kind the element at `i` decodes to.
pub open spec fn service_at(items: Seq<JsonSpec>, i: int) -> ServiceKind {
    kind_of_code(items[i]->Str_0)->Some_0
}

/// The decoded service list, in wire order.
pub open spec fn services_spec(items: Seq<JsonSpec>) -> Seq<ServiceKind> {
    Seq::new(items.len(), |i: int| service_at(items, i))
}

/// Decode a node's service-code list. An unknown code fails the whole
/// decode; the enumeration is closed.
pub fn parse_services(items: &Vec<JsonValue>) -> (r: Result<Vec<ServiceKind>, SchemaError>)
    ensures
        r is Ok <==> services_ok(arr_spec(items@)),
        r matches Ok(v) ==> v@ == services_spec(arr_spec(items@)),
{
    let ghost m = arr_spec(items@);
    let mut out: Vec<ServiceKind> = Vec::new();
    let mut i: usize = 0;
    while i < items.len()
        invariant
            m == arr_spec(items@),
            m.len() == items@.len(),
            i <= items@.len(),
            out@.len() == i,
            forall|k: int|
                0 <= k < i ==> (#[trigger] m[k]) is Str && kind_of_code(m[k]->Str_0) is Some,
            forall|k: int| 0 <= k < i ==> out@[k] == service_at(m, k),
        decreases items@.len() - i,
    {
        match &items[i] {
            JsonValue::Str(code) => {
                match ServiceKind::from_code(code.as_str()) {
                    Some(sk) => {
                        out.push(sk);
                    },
                    None => {
                        proof {
                            assert(!services_ok(m));
                        }
                        return Err(SchemaError);
                    },
                }
            },
            _ => {
                proof {
                    assert(!(m[i as int] is Str));
                    assert(!services_ok(m));
                }
                return Err(SchemaError);
            },
        }
        i += 1;
    }
    proof {
        assert(out@ =~= services_spec(m));
    }
    Ok(out)
}

/// The payload object has every required node field, with the right type.
pub open spec fn node_fields_ok(fields: Seq<(Seq<char>, JsonSpec)>) -> bool {
    &&& str_field(fields, "hostname"@) is Some
    &&& str_field(fields, "status"@) is Some
    &&& u64_field(fields, "memoryTotal"@) is Some
    &&& u64_field(fields, "memoryFree"@) is Some
    &&& arr_field(fields, "services"@) is Some
    &&& services_ok(arr_field(fields, "services"@)->Some_0)
    &&& str_field(fields, "version"@) is Some
    &&& str_field(fields, "os"@) is Some
}

/// The node a payload object describes, if it matches the schema.
pub open spec fn parse_node_spec(j: JsonSpec) -> Option<NodeSpec> {
    match j {
        JsonSpec::Obj(fields) => if node_fields_ok(fields) {
            Some(
                NodeSpec {
                    hostname: str_field(fields, "hostname"@)->Some_0,
                    status: str_field(fields, "status"@)->Some_0,
                    services: services_spec(arr_field(fields, "services"@)->Some_0),
                    version: str_field(fields, "version"@)->Some_0,
                    os: str_field(fields, "os"@)->Some_0,
                    memory_total: u64_field(fields, "memoryTotal"@)->Some_0,
                    memory_free: u64_field(fields, "memoryFree"@)->Some_0,
                },
            )
        } else {
            None
        },
        _ => None,
    }
}

/// Check one node object of the payload against the fixed schema.
pub fn parse_node(j: &JsonValue) -> (r: Result<NodeInfo, SchemaError>)
    ensures
        r is Ok <==> parse_node_spec(j@) is Some,
        r matches Ok(n) ==> parse_node_spec(j@) == Some(n@),
{
    let fields = match j {
        JsonValue::Obj(fields) => fields,
        _ => {
            return Err(SchemaError);
        },
    };
    let ghost fs = j@->Obj_0;
    proof {
        assert(fs.len() == fields@.len());
        assert forall|k: int|
            0 <= k < fields@.len() implies fs[k] == (fields@[k].0@, jspec(fields@[k].1)) by {}
        assert(fs =~= obj_fields_spec(*fields));
    }
    let hostname: String = match lookup(fields, "hostname") {
        Some(JsonValue::Str(t)) => t.clone(),
        _ => {
            return Err(SchemaError);
        },
    };
    let status: String = match lookup(fields, "status") {
        Some(JsonValue::Str(t)) => t.clone(),
        _ => {
            return Err(SchemaError);
        },
    };
    let memory_total: u64 = match lookup(fields, "memoryTotal") {
        Some(JsonValue::Int(n)) => {
            if 0 <= *n && *n <= u64::MAX as i128 {
                *n as u64
            } else {
                return Err(SchemaError);
            }
        },
        _ => {
            return Err(SchemaError);
        },
    };
    let memory_free: u64 = match lookup(fields, "memoryFree") {
        Some(JsonValue::Int(n)) => {
            if 0 <= *n && *n <= u64::MAX as i128 {
                *n as u64
            } else {
                return Err(SchemaError);
            }
        },
        _ => {
            return Err(SchemaError);
        },
    };
    let services: Vec<ServiceKind> = match lookup(fields, "services") {
        Some(v) => match v {
            JsonValue::Arr(items) => {
                proof {
                    let inner = v@->Arr_0;
                    assert(inner.len() == items@.len());
                    assert forall|k: int|
                        0 <= k < items@.len() implies inner[k] == jspec(items@[k]) by {}
                    assert(inner =~= arr_spec(items@));
                }
                match parse_services(items) {
                    Ok(sv) => sv,
                    Err(e) => {
                        return Err(e);
                    },
                }
            },
            _ => {
                return Err(SchemaError);
            },
        },
        None => {
            return Err(SchemaError);
        },
    };
    let version: String = match lookup(fields, "version") {
        Some(JsonValue::Str(t)) => t.clone(),
        _ => {
            return Err(SchemaError);
        },
    };
    let os: String = match lookup(fields, "os") {
        Some(JsonValue::Str(t)) => t.clone(),
        _ => {
            return Err(SchemaError);
        },
    };
    let n = NodeInfo { hostname, status, services, version, os, memory_total, memory_free };
    proof {
        assert(node_fields_ok(fs));
        assert(n@ =~= parse_node_spec(j@)->Some_0);
    }
    Ok(n)
}

/// The record a node renders to: hostname, status, comma-joined service
/// names, version, operating system, and the two byte-count scalars.
pub open spec fn node_record_spec(n: NodeSpec) -> SValue {
    SValue::Record(
        seq![
            ("hostname"@, SValue::Str(n.hostname)),
            ("status"@, SValue::Str(n.status)),
            ("services"@, SValue::Str(join_spec(n.services))),
            ("version"@, SValue::Str(n.version)),
            ("os"@, SValue::Str(n.os)),
            ("memory_total"@, SValue::Bytes(n.memory_total)),
            ("memory_free"@, SValue::Bytes(n.memory_free)),
        ],
    )
}

/// Render one node as a structured record.
pub fn node_record(n: &NodeInfo) -> (r: StructuredValue)
    ensures
        r@ == node_record_spec(n@),
{
    let services = join_services(&n.services);
    let mut fields: Vec<(String, StructuredValue)> = Vec::new();
    fields.push(("hostname".to_owned(), StructuredValue::Str(n.hostname.clone())));
    fields.push(("status".to_owned(), StructuredValue::Str(n.status.clone())));
    fields.push(("services".to_owned(), StructuredValue::Str(services)));
    fields.push(("version".to_owned(), StructuredValue::Str(n.version.clone())));
    fields.push(("os".to_owned(), StructuredValue::Str(n.os.clone())));
    fields.push(("memory_total".to_owned(), StructuredValue::Bytes(n.memory_total)));
    fields.push(("memory_free".to_owned(), StructuredValue::Bytes(n.memory_free)));
    let r = StructuredValue::Record(fields);
    proof {
        assert(fields@.len() == 7);
        assert forall|k: int|
            0 <= k < 7 implies r@->Record_0[k] == (fields@[k].0@, sspec(fields@[k].1)) by {}
        let target = node_record_spec(n@)->Record_0;
        assert(target[0] == ("hostname"@, SValue::Str(n@.hostname)));
        assert(target[1] == ("status"@, SValue::Str(n@.status)));
        assert(target[2] == ("services"@, SValue::Str(join_spec(n@.services))));
        assert(target[3] == ("version"@, SValue::Str(n@.version)));
        assert(target[4] == ("os"@, SValue::Str(n@.os)));
        assert(target[5] == ("memory_total"@, SValue::Bytes(n@.memory_total)));
        assert(target[6] == ("memory_free"@, SValue::Bytes(n@.memory_free)));
        let got = r@->Record_0;
        assert(got[0] == (fields@[0].0@, sspec(fields@[0].1)));
        assert(got[0] == target[0]);
        assert(got[1] == target[1]);
        assert(got[2] == target[2]);
        assert(got[3] == target[3]);
        assert(got[4] == target[4]);
        assert(got[5] == target[5]);
        assert(got[6] == target[6]);
        assert(got =~= target);
        assert(r@ =~= node_record_spec(n@));
    }
    r
}

/// The payload's node list, if the payload is an object with one.
pub open spec fn pool_nodes_spec(j: JsonSpec) -> Option<Seq<JsonSpec>> {
    match j {
        JsonSpec::Obj(fields) => arr_field(fields, "nodes"@),
        _ => None,
    }
}

/// The whole payload matches the fixed schema: a `nodes` list whose every
/// element is a well-formed node object.
pub open spec fn payload_ok(j: JsonSpec) -> bool {
    &&& pool_nodes_spec(j) is Some
    &&& forall|i: int|
        0 <= i < pool_nodes_spec(j)->Some_0.len() ==> parse_node_spec(
            #[trigger] pool_nodes_spec(j)->Some_0[i],
        ) is Some
}

/// The records a well-formed payload renders to, in wire order.
pub open spec fn node_records_spec(ns: Seq<JsonSpec>) -> Seq<SValue> {
    Seq::new(ns.len(), |i: int| node_record_spec(parse_node_spec(ns[i])->Some_0))
}

/// Turn a `pools/default` payload into one record per node, in wire order.
/// Any schema mismatch — a missing field, a wrong type, an unknown service
/// code — fails the whole call.
pub fn nodes_from_payload(payload: &JsonValue) -> (r: Result<Vec<StructuredValue>, SchemaError>)
    ensures
        r is Ok <==> payload_ok(payload@),
        r matches Ok(v) ==> v@.len() == pool_nodes_spec(payload@)->Some_0.len() && (forall|i: int|
            0 <= i < v@.len() ==> (#[trigger] v@[i])@ == node_records_spec(
                pool_nodes_spec(payload@)->Some_0,
            )[i]),
{
    let fields = match payload {
        JsonValue::Obj(fields) => fields,
        _ => {
            return Err(SchemaError);
        },
    };
    let ghost fs = payload@->Obj_0;
    proof {
        assert(fs.len() == fields@.len());
        assert forall|k: int|
            0 <= k < fields@.len() implies fs[k] == (fields@[k].0@, jspec(fields@[k].1)) by {}
        assert(fs =~= obj_fields_spec(*fields));
    }
    let items = match lookup(fields, "nodes") {
        Some(v) => match v {
            JsonValue::Arr(items) => {
                proof {
                    let inner = v@->Arr_0;
                    assert(inner.len() == items@.len());
                    assert forall|k: int|
                        0 <= k < items@.len() implies inner[k] == jspec(items@[k]) by {}
                    assert(inner =~= arr_spec(items@));
                }
                items
            },
            _ => {
                return Err(SchemaError);
            },
        },
        None => {
            return Err(SchemaError);
        },
    };
    let ghost ns = pool_nodes_spec(payload@)->Some_0;
    let mut out: Vec<StructuredValue> = Vec::new();
    let mut i: usize = 0;
    while i < items.len()
        invariant
            ns == pool_nodes_spec(payload@)->Some_0,
            pool_nodes_spec(payload@) is Some,
            ns.len() == items@.len(),
            forall|k: int| 0 <= k < items@.len() ==> ns[k] == jspec(#[trigger] items@[k]),
            i <= items@.len(),
            out@.len() == i,
            forall|k: int| 0 <= k < i ==> parse_node_spec(#[trigger] ns[k]) is Some,
            forall|k: int| 0 <= k < i ==> (#[trigger] out@[k])@ == node_record_spec(
                parse_node_spec(ns[k])->Some_0,
            ),
        decreases items@.len() - i,
    {
        let node = match parse_node(&items[i]) {
            Ok(n) => n,
            Err(e) => {
                proof {
                    assert(parse_node_spec(ns[i as int]) is None);
                }
                return Err(e);
            },
        };
        let rec = node_record(&node);
        out.push(rec);
        i += 1;
    }
    proof {
        assert forall|k: int| 0 <= k < out@.len() implies (#[trigger] out@[k])@
            == node_records_spec(ns)[k] by {}
    }
    Ok(out)
}

} // verus!
