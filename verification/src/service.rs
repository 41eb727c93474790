//! The closed enumeration of services a cluster node can advertise, the
//! decoding of their wire-format short codes, and their canonical lowercase
//! display names.

use vstd::prelude::*;
use vstd::string::StrSliceExecFns;
use vstd::string::StringExecFns;

verus! {

/// A capability a node provides. The enumeration is closed: a wire code
/// outside this set is a decode failure, never a catch-all variant.
#[derive(Clone, Copy, Debug, PartialEq, Eq, Structural)]
pub enum ServiceKind {
    Analytics,
    Eventing,
    Search,
    Query,
    Indexing,
    KeyValue,
}

/// The service kind a wire-format short code denotes, if any.
pub open spec fn kind_of_code(c: Seq<char>) -> Option<ServiceKind> {
    if c == "cbas"@ {
        Some(ServiceKind::Analytics)
    } else if c == "eventing"@ {
        Some(ServiceKind::Eventing)
    } else if c == "fts"@ {
        Some(ServiceKind::Search)
    } else if c == "n1ql"@ {
        Some(ServiceKind::Query)
    } else if c == "index"@ {
        Some(ServiceKind::Indexing)
    } else if c == "kv"@ {
        Some(ServiceKind::KeyValue)
    } else {
        None
    }
}

/// The canonical lowercase display name of a service kind.
pub open spec fn display_of(k: ServiceKind) -> Seq<char> {
    match k {
        ServiceKind::Analytics => "analytics"@,
        ServiceKind::Eventing => "eventing"@,
        ServiceKind::Search => "search"@,
        ServiceKind::Query => "query"@,
        ServiceKind::Indexing => "indexing"@,
        ServiceKind::KeyValue => "kv"@,
    }
}

/// Character-for-character string equality.
pub fn str_eq(a: &str, b: &str) -> (r: bool)
    ensures
        r == (a@ == b@),
{
    let alen: usize = a.unicode_len();
    let blen: usize = b.unicode_len();
    if alen != blen {
        return false;
    }
    let mut i: usize = 0;
    while i < alen
        invariant
            alen == a@.len(),
            blen == b@.len(),
            alen == blen,
            i <= alen,
            forall|k: int| 0 <= k < i ==> a@[k] == b@[k],
        decreases alen - i,
    {
        if a.get_char(i) != b.get_char(i) {
            return false;
        }
        i += 1;
    }
    proof {
        assert(a@ =~= b@);
    }
    true
}

/// The comma-joined display names of a service list, in list order.
pub open spec fn join_spec(ks: Seq<ServiceKind>) -> Seq<char>
    decreases ks.len(),
{
    if ks.len() == 0 {
        Seq::empty()
    } else if ks.len() == 1 {
        display_of(ks[0])
    } else {
        display_of(ks[0]) + ","@ + join_spec(ks.skip(1))
    }
}

/// Appending one more service extends the joined names by a comma and its
/// display name.
pub proof fn lemma_join_push(a: Seq<ServiceKind>, k: ServiceKind)
    requires
        a.len() > 0,
    ensures
        join_spec(a.push(k)) == join_spec(a) + ","@ + display_of(k),
    decreases a.len(),
{
    let p = a.push(k);
    if a.len() == 1 {
        assert(p.skip(1) =~= seq![k]);
        assert(seq![k].len() == 1);
        assert(join_spec(seq![k]) == display_of(k));
        assert(join_spec(p) == display_of(p[0]) + ","@ + join_spec(p.skip(1)));
        assert(join_spec(p) =~= join_spec(a) + ","@ + display_of(k));
    } else {
        assert(p.skip(1) =~= a.skip(1).push(k));
        lemma_join_push(a.skip(1), k);
        assert(p[0] == a[0]);
        assert(join_spec(p) == display_of(a[0]) + ","@ + (join_spec(a.skip(1)) + ","@ + display_of(
            k,
        )));
        assert(join_spec(a) == display_of(a[0]) + ","@ + join_spec(a.skip(1)));
        assert(join_spec(p) =~= join_spec(a) + ","@ + display_of(k));
    }
}

/// Join the display names of the given services with commas, keeping the
/// list's order.
pub fn join_services(ks: &Vec<ServiceKind>) -> (r: String)
    ensures
        r@ == join_spec(ks@),
{
    let mut s = String::new();
    let mut i: usize = 0;
    proof {
        assert(ks@.take(0) =~= Seq::<ServiceKind>::empty());
    }
    while i < ks.len()
        invariant
            i <= ks.len(),
            s@ == join_spec(ks@.take(i as int)),
        decreases ks.len() - i,
    {
        if i > 0 {
            s.append(",");
        }
        let name = ks[i].display_name();
        s.append(name.as_str());
        proof {
            assert(ks@.take(i as int).push(ks@[i as int]) =~= ks@.take(i as int + 1));
            if i > 0 {
                lemma_join_push(ks@.take(i as int), ks@[i as int]);
            } else {
                assert(ks@.take(1)[0] == ks@[0]);
            }
        }
        i += 1;
    }
    proof {
        assert(ks@.take(ks@.len() as int) =~= ks@);
    }
    s
}

impl ServiceKind {
    /// Decode a wire-format short code; an unknown code is rejected.
    pub fn from_code(code: &str) -> (r: Option<ServiceKind>)
        ensures
            r == kind_of_code(code@),
    {
        if str_eq(code, "cbas") {
            Some(ServiceKind::Analytics)
        } else if str_eq(code, "eventing") {
            Some(ServiceKind::Eventing)
        } else if str_eq(code, "fts") {
            Some(ServiceKind::Search)
        } else if str_eq(code, "n1ql") {
            Some(ServiceKind::Query)
        } else if str_eq(code, "index") {
            Some(ServiceKind::Indexing)
        } else if str_eq(code, "kv") {
            Some(ServiceKind::KeyValue)
        } else {
            None
        }
    }

    /// The canonical lowercase display name, distinct from the wire code
    /// for every kind but key-value.
    pub fn display_name(&self) -> (r: String)
        ensures
            r@ == display_of(*self),
    {
        match self {
            ServiceKind::Analytics => "analytics".to_owned(),
            ServiceKind::Eventing => "eventing".to_owned(),
            ServiceKind::Search => "search".to_owned(),
            ServiceKind::Query => "query".to_owned(),
            ServiceKind::Indexing => "indexing".to_owned(),
            ServiceKind::KeyValue => "kv".to_owned(),
        }
    }
}

} // verus!
