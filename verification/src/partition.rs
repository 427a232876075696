//! Identity of the output partitions of query stages.

use std::cmp::Ordering;
use vstd::prelude::*;
use vstd::std_specs::cmp::{PartialEqSpec, PartialOrdSpec};
use vstd::utf8::{encode_utf8, encode_utf8_decode_utf8};
use crate::order::{
    bytes_less, lemma_lex_less_asymmetric, lemma_lex_less_connected, lemma_lex_less_irreflexive,
    lemma_lex_less_transitive, lex_less,
};

verus! {

/// Unique identifier for the output partition of an operator: the job, the
/// stage within the job, and the index of the partition within the stage.
#[derive(Debug, Clone, Eq, Ord, Hash)]
pub struct PartitionId {
    pub job_id: String,
    pub stage_id: usize,
    pub partition_id: usize,
}

/// What a [`PartitionId`] holds.
pub ghost struct PartitionIdView {
    pub job_id: Seq<char>,
    pub stage_id: usize,
    pub partition_id: usize,
}

impl View for PartitionId {
    type V = PartitionIdView;

    open spec fn view(&self) -> PartitionIdView {
        PartitionIdView {
            job_id: self.job_id@,
            stage_id: self.stage_id,
            partition_id: self.partition_id,
        }
    }
}

impl PartitionIdView {
    /// Whether `self` comes strictly before `other`: by job first, as text
    /// compares (byte by byte in UTF-8), then by stage, then by partition.
    pub open spec fn precedes(self, other: PartitionIdView) -> bool {
        ||| lex_less(encode_utf8(self.job_id), encode_utf8(other.job_id))
        ||| self.job_id == other.job_id && self.stage_id < other.stage_id
        ||| self.job_id == other.job_id && self.stage_id == other.stage_id && self.partition_id
            < other.partition_id
    }

    /// No identifier comes before itself.
    pub proof fn lemma_irreflexive(self)
        ensures
            !self.precedes(self),
    {
        lemma_lex_less_irreflexive(encode_utf8(self.job_id));
    }

    /// Of two identifiers, either one comes before the other or all their
    /// fields are equal, and only one of the three holds.
    pub proof fn lemma_trichotomy(self, other: PartitionIdView)
        ensures
            self.precedes(other) || self == other || other.precedes(self),
            !(self.precedes(other) && other.precedes(self)),
            !(self.precedes(other) && self == other),
    {
        let a = encode_utf8(self.job_id);
        let b = encode_utf8(other.job_id);
        lemma_lex_less_connected(a, b);
        lemma_lex_less_asymmetric(a, b);
        if a == b {
            encode_utf8_decode_utf8(self.job_id);
            encode_utf8_decode_utf8(other.job_id);
        }
    }

    /// The order is transitive.
    pub proof fn lemma_transitive(self, middle: PartitionIdView, other: PartitionIdView)
        requires
            self.precedes(middle),
            middle.precedes(other),
        ensures
            self.precedes(other),
    {
        let a = encode_utf8(self.job_id);
        let b = encode_utf8(middle.job_id);
        let c = encode_utf8(other.job_id);
        if lex_less(a, b) && lex_less(b, c) {
            lemma_lex_less_transitive(a, b, c);
        }
    }
}

impl PartitionId {
    pub fn new(job_id: &str, stage_id: usize, partition_id: usize) -> (id: PartitionId)
        ensures
            id@ == (PartitionIdView { job_id: job_id@, stage_id, partition_id }),
    {
        PartitionId { job_id: job_id.to_owned(), stage_id, partition_id }
    }

    /// Decides whether `self` comes strictly before `other`.
    pub fn precedes(&self, other: &PartitionId) -> (before: bool)
        ensures
            before == self@.precedes(other@),
    {
        if self.job_id == other.job_id {
            proof {
                lemma_lex_less_irreflexive(encode_utf8(self.job_id@));
            }
            self.stage_id < other.stage_id || (self.stage_id == other.stage_id
                && self.partition_id < other.partition_id)
        } else {
            bytes_less(self.job_id.as_str().as_bytes(), other.job_id.as_str().as_bytes())
        }
    }
}

impl PartialEq for PartitionId {
    fn eq(&self, other: &PartitionId) -> (equal: bool) {
        self.job_id == other.job_id && self.stage_id == other.stage_id && self.partition_id
            == other.partition_id
    }
}

/// Two identifiers are equal when all three of their fields are.
impl vstd::std_specs::cmp::PartialEqSpecImpl for PartitionId {
    open spec fn obeys_eq_spec() -> bool {
        true
    }

    open spec fn eq_spec(&self, other: &PartitionId) -> bool {
        self@ == other@
    }
}

impl PartialOrd for PartitionId {
    fn partial_cmp(&self, other: &PartitionId) -> (order: Option<Ordering>) {
        if self.precedes(other) {
            Some(Ordering::Less)
        } else if other.precedes(self) {
            Some(Ordering::Greater)
        } else {
            Some(Ordering::Equal)
        }
    }
}

/// Identifiers are ordered by job, then stage, then partition, and any two
/// of them compare.
impl vstd::std_specs::cmp::PartialOrdSpecImpl for PartitionId {
    open spec fn obeys_partial_cmp_spec() -> bool {
        true
    }

    open spec fn partial_cmp_spec(&self, other: &PartitionId) -> Option<Ordering> {
        if self@.precedes(other@) {
            Some(Ordering::Less)
        } else if other@.precedes(self@) {
            Some(Ordering::Greater)
        } else {
            Some(Ordering::Equal)
        }
    }
}

/// Equality and order agree: two identifiers compare as equal exactly when
/// `==` holds of them, that is when all their fields are equal, and as less
/// or greater exactly when one comes before the other field by field.
pub proof fn lemma_order_agrees_with_equality(a: PartitionId, b: PartitionId)
    ensures
        a.partial_cmp_spec(&b) == Some(Ordering::Equal) <==> a.eq_spec(&b),
        a.partial_cmp_spec(&b) == Some(Ordering::Less) <==> a@.precedes(b@),
        a.partial_cmp_spec(&b) == Some(Ordering::Greater) <==> b@.precedes(a@),
        a.partial_cmp_spec(&b) == Some(Ordering::Less) <==> b.partial_cmp_spec(&a) == Some(
            Ordering::Greater,
        ),
{
    a@.lemma_trichotomy(b@);
    b@.lemma_trichotomy(a@);
}

} // verus!
