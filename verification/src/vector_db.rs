//! The settings of a Qdrant collection of document vectors, and the checks made on them
//! before anything is sent to Qdrant.
use vstd::prelude::*;
use crate::text::{decimal, format_u64, string_push_str};

verus! {

/// The error when the collection name is empty.
pub const EMPTY_COLLECTION_NAME: &'static str = "Collection name cannot be empty";

/// The error when the vector size is zero.
pub const ZERO_VECTOR_SIZE: &'static str = "Vector size must be greater than zero";

/// A collection of document vectors: its name and the size of its vectors, both checked.
#[derive(Debug)]
pub struct VectorDb {
    collection_name: String,
    vector_size: u64,
}

impl VectorDb {
    #[verifier::type_invariant]
    spec fn settings_valid(self) -> bool {
        self.collection_name@.len() > 0 && self.vector_size > 0
    }

    /// The name of the collection.
    pub closed spec fn name(self) -> Seq<char> {
        self.collection_name@
    }

    /// The size of the vectors.
    pub closed spec fn size(self) -> u64 {
        self.vector_size
    }

    /// Checks the settings of a collection: the name must not be empty and the vector size
    /// must be positive.
    pub fn new(collection_name: String, vector_size: u64) -> (r: Result<VectorDb, String>)
        ensures
            r is Ok <==> collection_name@.len() > 0 && vector_size > 0,
            r matches Ok(db) ==> db.name() == collection_name@ && db.size() == vector_size,
            r matches Err(m) ==> m@ == if collection_name@.len() == 0 {
                EMPTY_COLLECTION_NAME@
            } else {
                ZERO_VECTOR_SIZE@
            },
    {
        if collection_name.as_str().is_empty() {
            return Err(EMPTY_COLLECTION_NAME.to_string());
        }
        if vector_size == 0 {
            return Err(ZERO_VECTOR_SIZE.to_string());
        }
        Ok(VectorDb { collection_name, vector_size })
    }

    /// The name of the collection.
    pub fn collection_name(&self) -> (s: &str)
        ensures
            s@ == self.name(),
            s@.len() > 0,
    {
        proof {
            use_type_invariant(self);
        }
        self.collection_name.as_str()
    }

    /// The size of the vectors.
    pub fn vector_size(&self) -> (n: u64)
        ensures
            n == self.size(),
            n > 0,
    {
        proof {
            use_type_invariant(self);
        }
        self.vector_size
    }

    /// Checks that a query vector has the collection's size.
    pub fn check_query_dimension(&self, dimension: usize) -> (r: Result<(), String>)
        ensures
            r is Ok <==> dimension == self.size(),
            r matches Err(m) ==> m@ == "Query vector dimension ("@ + decimal(dimension as nat)
                + ") does not match collection dimension ("@ + decimal(self.size() as nat) + ")"@,
    {
        let d = dimension as u64;
        if d != self.vector_size {
            let mut m = "Query vector dimension (".to_string();
            let given = format_u64(d);
            string_push_str(&mut m, given.as_str());
            string_push_str(&mut m, ") does not match collection dimension (");
            let expected = format_u64(self.vector_size);
            string_push_str(&mut m, expected.as_str());
            string_push_str(&mut m, ")");
            return Err(m);
        }
        Ok(())
    }
}

/// What an upsert of a batch of documents comes to.
#[derive(Clone, Copy, Debug, PartialEq, Eq, Structural)]
pub enum UpsertPlan {
    /// Nothing is sent: there were no documents, or none could be made into a point.
    Nothing,
    /// The prepared points are sent.
    Send,
}

/// Decides whether an upsert sends anything: only when some document was given and some point
/// could be prepared from the documents.
pub fn plan_upsert(documents: usize, prepared_points: usize) -> (p: UpsertPlan)
    ensures
        p == (if documents > 0 && prepared_points > 0 {
            UpsertPlan::Send
        } else {
            UpsertPlan::Nothing
        }),
{
    if documents == 0 || prepared_points == 0 {
        UpsertPlan::Nothing
    } else {
        UpsertPlan::Send
    }
}

} // verus!
