//! High-throughput synthesis of benchmark-scale structured datasets.
//!
//! A [`Table`] is a logical sequence of rows of one schema, partitioned into
//! a fixed number of batches; every batch is a pure function of the table's
//! configuration and the batch index, so batches may be generated in any
//! order, concurrently, with no coordination. Batches are materialized into
//! reusable columnar storage ([`col`]).

use vstd::prelude::*;

pub mod col;
pub mod kvtd;
pub mod rng;
pub mod tpcc;

use crate::col::{Col, Data};

verus! {

/// The type-erased metadata view of a table: a name and a batch count, for
/// tooling that lists tables without generating any data.
pub trait DynTable {
    /// The table's internal well-formedness (its configuration is valid).
    spec fn inv(&self) -> bool;

    /// The table's name.
    spec fn spec_name(&self) -> Seq<char>;

    /// The number of batches, as a function of the configuration.
    spec fn spec_num_batches(&self) -> nat;

    /// The table's name.
    fn name(&self) -> (n: &'static str)
        ensures
            n@ == self.spec_name(),
    ;

    /// The number of batches of data in this table.
    fn num_batches(&self) -> (n: usize)
        requires
            self.inv(),
        ensures
            n == self.spec_num_batches(),
    ;
}

/// A named set of data with a uniform schema, generated in batches.
///
/// Each batch's content is pinned by `spec_batch`, a pure function of the
/// table's configuration and the batch index: repeated generation of the
/// same batch — on this instance or on any instance with the same
/// configuration ([`Table::congruent`]) — produces identical column content.
pub trait Table: DynTable {
    /// The row type of this table.
    type Data: Data;

    /// The columnar batch with this table's schema.
    type Batch: Col<Self::Data>;

    /// Whether `self` and `other` carry the same configuration.
    spec fn congruent(&self, other: &Self) -> bool;

    /// The exact content of batch `idx`: the sequence of row models that
    /// `gen_batch` fills the batch with.
    spec fn spec_batch(&self, idx: nat) -> Seq<<Self::Data as Data>::Model>;

    /// Two invocations with identical configuration produce identical batch
    /// content, whatever the instances: batch content depends on the
    /// configuration and the index alone.
    proof fn lemma_congruent_determinism(&self, other: &Self)
        requires
            self.congruent(other),
        ensures
            self.spec_num_batches() == other.spec_num_batches(),
            forall|idx: nat| self.spec_batch(idx) == other.spec_batch(idx),
    ;

    /// What else holds of batch `idx`'s content beyond its exact value:
    /// facts the library knows of the generator results by their trusted
    /// contracts, stated over the rows. Most tables need nothing more.
    open spec fn batch_props(&self, idx: nat, rows: Seq<<Self::Data as Data>::Model>) -> bool {
        true
    }

    /// A batch index at or past `num_batches` yields an empty batch; this is
    /// normal, not an error.
    proof fn lemma_out_of_range_empty(&self, idx: nat)
        requires
            self.inv(),
            idx >= self.spec_num_batches(),
        ensures
            self.spec_batch(idx).len() == 0,
    ;

    /// Generates the requested batch's data.
    ///
    /// This clears the given batch and reuses allocations when possible. If
    /// the requested index is out of bounds, an empty batch is generated.
    fn gen_batch(&mut self, idx: usize, batch: &mut Self::Batch)
        requires
            old(self).inv(),
            old(batch).inv(),
        ensures
            final(self).inv(),
            final(self).congruent(old(self)),
            old(self).congruent(final(self)),
            final(batch).inv(),
            final(batch).model_seq() == old(self).spec_batch(idx as nat),
            old(self).batch_props(idx as nat, final(batch).model_seq()),
    ;
}

/// A caller-supplied operation applied to each table of a dataset, generic
/// over the table's schema so that each application is monomorphized.
pub trait TableFnMut {
    /// Applies the operation to one table.
    fn call_mut<T: Table>(&mut self, table: T)
        requires
            table.inv(),
    ;
}

/// A named dataset made up of one or more [`Table`]s sharing one
/// configuration.
pub trait Dataset: Sized {
    /// Configuration necessary to construct this dataset.
    type Config;

    /// Whether a configuration is valid for this dataset.
    spec fn config_wf(config: &Self::Config) -> bool;

    /// The configuration this dataset carries.
    spec fn spec_config(&self) -> Self::Config;

    /// The dataset's internal well-formedness.
    spec fn inv(&self) -> bool;

    /// Constructs an instance of this dataset with the given configuration:
    /// the dataset carries exactly that configuration, and is well-formed
    /// whenever the configuration is valid.
    fn init(config: Self::Config) -> (d: Self)
        ensures
            d.spec_config() == config,
            Self::config_wf(&config) ==> d.inv(),
    ;

    /// Invokes `f` once per table of this dataset — each table built from
    /// this dataset's configuration, in schema order, with nothing else
    /// between the calls. What each call receives is pinned by the table
    /// constructors' contracts; the visitation pattern itself is stated
    /// here in prose, since nothing is known of the visitor's state.
    fn tables<F: TableFnMut>(&self, f: &mut F)
        requires
            self.inv(),
    ;
}

/// Row-oriented access to a [`Table`]'s data, for serialization adapters
/// that walk the batches of one table.
pub struct Rows<'t, T>(pub &'t T);

} // verus!
