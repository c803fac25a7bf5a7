//! Weighted drawing of symbol kinds, on top of an alias table.

use crate::symbol::{kind_weights, SymbolType, KIND_COUNT};
use rand::rngs::ThreadRng;
use vstd::prelude::*;
use weighted_rand::builder::{NewBuilder, WalkerTableBuilder};
use weighted_rand::table::WalkerTable;

verus! {

/// `weighted_rand::table::WalkerTable`: an alias table, opaque here.
#[verifier::external_type_specification]
#[verifier::external_body]
pub struct ExWalkerTable(WalkerTable);

/// `weighted_rand::builder::WalkerTableBuilder`: the weights from which a
/// table is built, opaque here.
#[verifier::external_type_specification]
#[verifier::external_body]
pub struct ExWalkerTableBuilder(WalkerTableBuilder);

/// `rand::rngs::ThreadRng`: the handle to a thread's random generator.
#[verifier::external_type_specification]
#[verifier::external_body]
pub struct ExThreadRng(ThreadRng);

/// The weights that a table builder holds, in the order in which they were given.
pub uninterp spec fn builder_weights(builder: WalkerTableBuilder) -> Seq<u32>;

/// The number of indices that an alias table can give out: the length of its
/// alias list where its probability list is as long and every alias is below
/// that length, and 0 for any other table.
pub uninterp spec fn table_span(table: WalkerTable) -> nat;

/// The alias table that a builder makes from the weights it holds.
pub uninterp spec fn table_of(weights: Seq<u32>) -> WalkerTable;

/// The weights that the builder of the sampler holds: those of the kinds in
/// sampling order, each times the number of kinds.
pub open spec fn scaled_kind_weights() -> Seq<u32> {
    seq![1320u32, 1320u32, 880u32, 660u32, 440u32, 352u32, 308u32, 220u32, 132u32, 44u32, 33u32]
}

/// Sum of a sequence of weights.
pub open spec fn weight_sum(weights: Seq<u32>) -> nat
    decreases weights.len(),
{
    if weights.len() == 0 {
        0
    } else {
        weight_sum(weights.drop_last()) + weights.last() as nat
    }
}

/// `WalkerTableBuilder::new` on integer weights. The builder keeps one entry
/// per weight, each weight multiplied by the number of weights; the product
/// must fit in 32 bits.
#[verifier::external_body]
fn new_builder(weights: &Vec<u32>) -> (builder: WalkerTableBuilder)
    requires
        weights.len() <= u32::MAX,
        forall|i: int| 0 <= i < weights.len() ==> weights[i] * weights.len() <= u32::MAX,
    ensures
        builder_weights(builder).len() == weights.len(),
        forall|i: int|
            0 <= i < weights.len() ==> builder_weights(builder)[i] == weights[i] * weights.len(),
{
    WalkerTableBuilder::new(weights.as_slice())
}

/// `WalkerTableBuilder::build`. The table is computed from the weights of the
/// builder and from nothing else. It has one entry per weight and every alias
/// in it is the index of an entry; the builder sums its weights in 32 bits.
#[verifier::external_body]
fn build_table(builder: &WalkerTableBuilder) -> (table: WalkerTable)
    requires
        weight_sum(builder_weights(*builder)) <= u32::MAX,
    ensures
        table == table_of(builder_weights(*builder)),
        table_span(table) == builder_weights(*builder).len(),
{
    builder.build()
}

/// `rand::thread_rng`: a handle to the random generator of this thread.
#[verifier::external_body]
fn thread_rng() -> ThreadRng {
    rand::thread_rng()
}

/// `WalkerTable::next_rng`. It picks an entry at random and gives back its
/// index or its alias: which one depends on the generator, but both are
/// below the number of entries.
#[verifier::external_body]
fn next_index(table: &WalkerTable, rng: &mut ThreadRng) -> (index: usize)
    requires
        table_span(*table) > 0,
    ensures
        index < table_span(*table),
{
    table.next_rng(rng)
}

/// Draws symbol kinds at random, each in proportion to its weight.
#[derive(Debug)]
pub struct Sampler {
    table: WalkerTable,
}

impl Sampler {
    /// The table is the one built from the weights of the kinds, and has one
    /// entry for each kind.
    pub closed spec fn wf(&self) -> bool {
        &&& self.table == table_of(scaled_kind_weights())
        &&& table_span(self.table) == KIND_COUNT
    }

    /// The weights of the kinds, in sampling order.
    pub fn weights() -> (weights: Vec<u32>)
        ensures
            weights@ == kind_weights(),
    {
        let weights: Vec<u32> = vec![120, 120, 80, 60, 40, 32, 28, 20, 12, 4, 3];
        assert(weights@ =~= kind_weights());
        weights
    }

    /// A sampler over the eleven kinds with their fixed weights.
    pub fn new() -> (sampler: Sampler)
        ensures
            sampler.wf(),
    {
        let weights = Sampler::weights();
        let builder = new_builder(&weights);
        proof {
            assert(builder_weights(builder) =~= scaled_kind_weights());
            reveal_with_fuel(weight_sum, 12);
            assert(weight_sum(scaled_kind_weights()) == 5709);
        }
        Sampler { table: build_table(&builder) }
    }

    /// Draws one kind. Which kind comes out depends on the random generator
    /// of the calling thread, whose state advances.
    pub fn draw(&self) -> (kind: SymbolType)
        requires
            self.wf(),
    {
        let mut rng = thread_rng();
        let index = next_index(&self.table, &mut rng);
        SymbolType::from_index(index)
    }
}

} // verus!
