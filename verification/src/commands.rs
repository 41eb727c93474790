//! The command contract: a uniform interface over the two operations —
//! topology listing and query execution — so a dispatcher can register,
//! parse for, and document them interchangeably, plus the cluster context
//! each command reads.

use vstd::prelude::*;
use vstd::string::StringExecFns;
use std::sync::Arc;
use crate::topology::SchemaError;

verus! {

/// A command-level failure, surfaced to the dispatcher as one terminal
/// error with a human-readable message: no retry, no partial results.
#[derive(Debug, PartialEq)]
pub enum CommandError {
    /// Connection or HTTP-level failure, a non-2xx admin response included.
    Transport(String),
    /// The admin response does not match the `pools/default` schema.
    Schema(SchemaError),
    /// The query service rejected or failed the statement; carries the
    /// service's own message.
    QueryService(String),
    /// A streamed result row was not a valid JSON value.
    RowDecode,
}

impl CommandError {
    /// The human-readable message shown to the user.
    pub fn message(&self) -> (r: String)
        ensures
            match self {
                CommandError::Transport(m) => r@ == "transport error: "@ + m@,
                CommandError::Schema(e) => r@
                    == "response does not match the pools/default schema"@,
                CommandError::QueryService(m) => r@ == "query service error: "@ + m@,
                CommandError::RowDecode => r@ == "malformed row in result stream"@,
            },
    {
        match self {
            CommandError::Transport(m) => {
                let mut s = "transport error: ".to_owned();
                s.append(m.as_str());
                s
            },
            CommandError::Schema(e) => e.message(),
            CommandError::QueryService(m) => {
                let mut s = "query service error: ".to_owned();
                s.append(m.as_str());
                s
            },
            CommandError::RowDecode => "malformed row in result stream".to_owned(),
        }
    }
}

/// The active cluster's coordinates. Read-only for the duration of a
/// command; the query-capable client handle that accompanies it lives with
/// the transport, outside this crate.
#[derive(Debug)]
pub struct ClusterContext {
    pub address: String,
    pub username: String,
    pub password: String,
}

/// One parameter of a command's signature.
#[derive(Debug)]
pub struct ParamSpec {
    pub name: String,
    pub required: bool,
    pub shape: String,
    pub description: String,
}

/// Mathematical model of a parameter.
#[verifier::ext_equal]
pub struct ParamModel {
    pub name: Seq<char>,
    pub required: bool,
    pub shape: Seq<char>,
    pub description: Seq<char>,
}

impl View for ParamSpec {
    type V = ParamModel;

    open spec fn view(&self) -> ParamModel {
        ParamModel {
            name: self.name@,
            required: self.required,
            shape: self.shape@,
            description: self.description@,
        }
    }
}

/// A command's signature: its name and its parameters, in the order the
/// dispatcher parses them.
#[derive(Debug)]
pub struct CommandSignature {
    pub name: String,
    pub params: Vec<ParamSpec>,
}

/// Mathematical model of a signature.
#[verifier::ext_equal]
pub struct SignatureModel {
    pub name: Seq<char>,
    pub params: Seq<ParamModel>,
}

impl View for CommandSignature {
    type V = SignatureModel;

    open spec fn view(&self) -> SignatureModel {
        SignatureModel {
            name: self.name@,
            params: Seq::new(self.params@.len(), |i: int| self.params@[i]@),
        }
    }
}

/// The uniform interface each operation implements: a unique name, a
/// parameter signature, and a one-line usage string. The execution entry
/// point lives with the dispatcher, which owns the transport.
pub trait Command {
    /// The signature this command declares.
    spec fn spec_signature(&self) -> SignatureModel;

    /// The usage line this command declares.
    spec fn spec_usage(&self) -> Seq<char>;

    /// The unique name the dispatcher registers the command under.
    fn name(&self) -> (r: String)
        ensures
            r@ == self.spec_signature().name,
    ;

    /// The parameter signature the dispatcher parses arguments with.
    fn signature(&self) -> (r: CommandSignature)
        ensures
            r@ == self.spec_signature(),
    ;

    /// A one-line usage string for help output.
    fn usage(&self) -> (r: String)
        ensures
            r@ == self.spec_usage(),
    ;
}

/// Lists all nodes of the connected cluster as records.
pub struct Nodes {
    pub context: Arc<ClusterContext>,
}

impl Nodes {
    pub fn new(context: Arc<ClusterContext>) -> (r: Self)
        ensures
            r.context == context,
    {
        Nodes { context }
    }
}

impl Command for Nodes {
    open spec fn spec_signature(&self) -> SignatureModel {
        SignatureModel { name: "nodes"@, params: Seq::empty() }
    }

    open spec fn spec_usage(&self) -> Seq<char> {
        "Lists all nodes of the connected cluster"@
    }

    fn name(&self) -> (r: String) {
        "nodes".to_owned()
    }

    fn signature(&self) -> (r: CommandSignature) {
        let r = CommandSignature { name: "nodes".to_owned(), params: Vec::new() };
        proof {
            assert(r@ =~= self.spec_signature());
        }
        r
    }

    fn usage(&self) -> (r: String) {
        "Lists all nodes of the connected cluster".to_owned()
    }
}

/// Executes a query statement against the cluster's query service and
/// streams the result records.
pub struct Query {
    pub context: Arc<ClusterContext>,
}

impl Query {
    pub fn new(context: Arc<ClusterContext>) -> (r: Self)
        ensures
            r.context == context,
    {
        Query { context }
    }
}

impl Command for Query {
    open spec fn spec_signature(&self) -> SignatureModel {
        SignatureModel {
            name: "query"@,
            params: seq![
                ParamModel {
                    name: "statement"@,
                    required: true,
                    shape: "string"@,
                    description: "the query statement"@,
                },
            ],
        }
    }

    open spec fn spec_usage(&self) -> Seq<char> {
        "Performs a n1ql query"@
    }

    fn name(&self) -> (r: String) {
        "query".to_owned()
    }

    fn signature(&self) -> (r: CommandSignature) {
        let mut params: Vec<ParamSpec> = Vec::new();
        params.push(
            ParamSpec {
                name: "statement".to_owned(),
                required: true,
                shape: "string".to_owned(),
                description: "the query statement".to_owned(),
            },
        );
        let r = CommandSignature { name: "query".to_owned(), params };
        proof {
            assert(r@.params[0] == self.spec_signature().params[0]);
            assert(r@ =~= self.spec_signature());
        }
        r
    }

    fn usage(&self) -> (r: String) {
        "Performs a n1ql query".to_owned()
    }
}

} // verus!
