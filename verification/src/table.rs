//! What the coordination reads of a table: its identifier, the place of its
//! metadata and the snapshots that the metadata knows.

use vstd::prelude::*;
use vstd::string::StringExecFns;

verus! {

/// The catalog's lookup key of a table: the namespace, segment by segment, and
/// the table's name.
#[derive(Debug, PartialEq, Eq)]
pub struct TableIdentifier {
    pub namespace: Vec<String>,
    pub name: String,
}

/// A [`TableIdentifier`] as plain sequences of characters.
pub struct TableIdentifierView {
    pub namespace: Seq<Seq<char>>,
    pub name: Seq<char>,
}

impl View for TableIdentifier {
    type V = TableIdentifierView;

    open spec fn view(&self) -> TableIdentifierView {
        TableIdentifierView { namespace: self.namespace.deep_view(), name: self.name@ }
    }
}

/// The segments written one after the other, with the separator between each two.
pub open spec fn join_segments(segments: Seq<Seq<char>>, separator: Seq<char>) -> Seq<char>
    decreases segments.len(),
{
    if segments.len() == 0 {
        Seq::empty()
    } else if segments.len() == 1 {
        segments[0]
    } else {
        join_segments(segments.drop_last(), separator) + separator + segments.last()
    }
}

impl TableIdentifierView {
    /// The namespace as the catalog stores it: its segments joined by a dot.
    pub open spec fn joined_namespace(self) -> Seq<char> {
        join_segments(self.namespace, seq!['.'])
    }
}

impl Clone for TableIdentifier {
    fn clone(&self) -> (copy: Self)
        ensures
            copy@ == self@,
    {
        let namespace = self.namespace.clone();
        proof {
            assert(namespace.deep_view() =~= self.namespace.deep_view());
        }
        TableIdentifier { namespace, name: self.name.clone() }
    }
}

impl TableIdentifier {
    /// An identifier of the given namespace and name.
    pub fn new(namespace: Vec<String>, name: String) -> (identifier: Self)
        ensures
            identifier.namespace == namespace,
            identifier.name == name,
    {
        TableIdentifier { namespace, name }
    }

    /// Whether both identifiers name the same table: the same segments, in the
    /// same order, and the same name.
    pub fn same_as(&self, other: &TableIdentifier) -> (same: bool)
        ensures
            same == (self@ == other@),
    {
        if self.namespace.len() != other.namespace.len() {
            proof {
                assert(self@.namespace.len() != other@.namespace.len());
            }
            return false;
        }
        let mut i: usize = 0;
        while i < self.namespace.len()
            invariant
                i <= self.namespace.len(),
                self.namespace.len() == other.namespace.len(),
                forall|j: int| 0 <= j < i ==> self.namespace[j]@ == other.namespace[j]@,
            decreases self.namespace.len() - i,
        {
            if self.namespace[i] != other.namespace[i] {
                proof {
                    assert(self@.namespace[i as int] == self.namespace[i as int]@);
                    assert(other@.namespace[i as int] == other.namespace[i as int]@);
                }
                return false;
            }
            i += 1;
        }
        proof {
            assert(self@.namespace =~= other@.namespace);
        }
        self.name == other.name
    }

    /// The namespace as the catalog stores it: its segments joined by a dot.
    pub fn joined_namespace(&self) -> (joined: String)
        ensures
            joined@ == self@.joined_namespace(),
    {
        let mut joined = String::new();
        let mut i: usize = 0;
        while i < self.namespace.len()
            invariant
                i <= self.namespace.len(),
                joined@ == join_segments(self@.namespace.take(i as int), seq!['.']),
            decreases self.namespace.len() - i,
        {
            let ghost before = self@.namespace.take(i as int);
            let ghost after = self@.namespace.take(i + 1);
            proof {
                assert(after.drop_last() =~= before);
                assert(after.last() == self.namespace[i as int]@);
                reveal_strlit(".");
                assert("."@ =~= seq!['.']);
            }
            if i > 0 {
                joined.append(".");
            }
            joined.append(self.namespace[i].as_str());
            proof {
                if i == 0 {
                    assert(joined@ =~= after[0]);
                }
            }
            i += 1;
        }
        proof {
            assert(self@.namespace.take(i as int) =~= self@.namespace);
        }
        joined
    }
}

/// What the coordination reads of a table at one point of its history: loaded
/// from the catalog, cached in a handle, or staged by a commit and not yet
/// published.
#[derive(Debug, PartialEq, Eq)]
pub struct TableState {
    pub identifier: TableIdentifier,
    /// Where the metadata lies, once a place was given to it.
    pub metadata_location: Option<String>,
    /// The ids of the snapshots that the metadata holds, in no particular order.
    pub snapshot_ids: Vec<i64>,
    pub current_snapshot_id: Option<i64>,
}

/// A [`TableState`] as plain values; the snapshots are a set.
pub struct TableStateView {
    pub identifier: TableIdentifierView,
    pub metadata_location: Option<Seq<char>>,
    pub snapshots: Set<i64>,
    pub current_snapshot_id: Option<i64>,
}

impl View for TableState {
    type V = TableStateView;

    open spec fn view(&self) -> TableStateView {
        TableStateView {
            identifier: self.identifier@,
            metadata_location: match self.metadata_location {
                Some(location) => Some(location@),
                None => None,
            },
            snapshots: self.snapshot_ids@.to_set(),
            current_snapshot_id: self.current_snapshot_id,
        }
    }
}

impl Clone for TableState {
    fn clone(&self) -> (copy: Self)
        ensures
            copy@ == self@,
    {
        let snapshot_ids = self.snapshot_ids.clone();
        proof {
            assert(snapshot_ids@ =~= self.snapshot_ids@);
        }
        TableState {
            identifier: self.identifier.clone(),
            metadata_location: match &self.metadata_location {
                Some(location) => Some(location.clone()),
                None => None,
            },
            snapshot_ids,
            current_snapshot_id: self.current_snapshot_id,
        }
    }
}

impl TableState {
    /// Whether the metadata holds a snapshot of the given id.
    pub fn has_snapshot(&self, snapshot_id: i64) -> (found: bool)
        ensures
            found == self@.snapshots.contains(snapshot_id),
    {
        let mut i: usize = 0;
        while i < self.snapshot_ids.len()
            invariant
                i <= self.snapshot_ids.len(),
                forall|j: int| 0 <= j < i ==> self.snapshot_ids[j] != snapshot_id,
            decreases self.snapshot_ids.len() - i,
        {
            if self.snapshot_ids[i] == snapshot_id {
                proof {
                    assert(self.snapshot_ids@.contains(snapshot_id));
                }
                return true;
            }
            i += 1;
        }
        false
    }
}

} // verus!
