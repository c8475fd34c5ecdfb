//! What a seed location holds after a materialization, and the laws of the
//! generator's protocol.
//!
//! A location is modelled as a map from entry name to content. The seed store
//! writes an entry by creating or overwriting it.

use vstd::prelude::*;

use crate::generator::{Generation, Generator, GeneratorError, SeedWrite};
use crate::naming::{lemma_seed_name_injective, seed_name_of};
use crate::strategy::{GenAlgo, GenAlgoType, SeedLoc};

verus! {

/// The entries of a location after the seed store performed `w` there.
pub open spec fn after_write(entries: Map<Seq<char>, Seq<char>>, w: SeedWrite) -> Map<
    Seq<char>,
    Seq<char>,
> {
    entries.insert(w.name@, w.content@)
}

/// The entries of a location after the writes of seeds `1..=k` of `g`, in
/// that order, starting from `before`.
pub open spec fn after_seeds(before: Map<Seq<char>, Seq<char>>, g: Generator, k: nat) -> Map<
    Seq<char>,
    Seq<char>,
>
    decreases k,
{
    if k == 0 {
        before
    } else {
        after_seeds(before, g, (k - 1) as nat).insert(seed_name_of(k), g.algo.output())
    }
}

/// The names of seeds `1..=k`.
pub open spec fn seed_names(k: nat) -> Set<Seq<char>> {
    Set::new(|name: Seq<char>| exists|i: nat| 1 <= i <= k && name == seed_name_of(i))
}

proof fn lemma_after_seeds(before: Map<Seq<char>, Seq<char>>, g: Generator, k: nat)
    ensures
        after_seeds(before, g, k).dom() == before.dom() + seed_names(k),
        forall|name| #[trigger]
            seed_names(k).contains(name) ==> after_seeds(before, g, k)[name] == g.algo.output(),
        forall|name|
            before.contains_key(name) && !seed_names(k).contains(name) ==> #[trigger] after_seeds(
                before,
                g,
                k,
            )[name] == before[name],
    decreases k,
{
    if k > 0 {
        let k1 = (k - 1) as nat;
        lemma_after_seeds(before, g, k1);
        assert forall|name| #[trigger] seed_names(k).contains(name) <==> (seed_names(k1).contains(
            name,
        ) || name == seed_name_of(k)) by {
            if seed_names(k).contains(name) && name != seed_name_of(k) {
                let i = choose|i: nat| 1 <= i <= k && name == seed_name_of(i);
                assert(i != k);
                assert(seed_names(k1).contains(name));
            }
            if name == seed_name_of(k) {
                assert(seed_names(k).contains(name));
            }
            if seed_names(k1).contains(name) {
                let i = choose|i: nat| 1 <= i <= k1 && name == seed_name_of(i);
                assert(seed_names(k).contains(name));
            }
        }
        assert(after_seeds(before, g, k).dom() =~= before.dom() + seed_names(k));
    }
}

proof fn lemma_seed_names_len(k: nat)
    ensures
        seed_names(k).finite(),
        seed_names(k).len() == k,
    decreases k,
{
    if k == 0 {
        assert(seed_names(0) =~= Set::empty());
    } else {
        let k1 = (k - 1) as nat;
        lemma_seed_names_len(k1);
        assert forall|name| #[trigger] seed_names(k).contains(name) <==> seed_names(k1).insert(
            seed_name_of(k),
        ).contains(name) by {
            if seed_names(k).contains(name) && name != seed_name_of(k) {
                let i = choose|i: nat| 1 <= i <= k && name == seed_name_of(i);
                assert(seed_names(k1).contains(name));
            }
            if name == seed_name_of(k) {
                assert(seed_names(k).contains(name));
            }
            if seed_names(k1).contains(name) {
                let i = choose|i: nat| 1 <= i <= k1 && name == seed_name_of(i);
                assert(seed_names(k).contains(name));
            }
        }
        assert(seed_names(k) =~= seed_names(k1).insert(seed_name_of(k)));
        if seed_names(k1).contains(seed_name_of(k)) {
            let i = choose|i: nat| 1 <= i <= k1 && seed_name_of(k) == #[trigger] seed_name_of(i);
            lemma_seed_name_injective(k, i);
        }
    }
}

/// Each accepted write of a generation adds its seed to the location: the
/// pending write, performed on the entries that the earlier writes left,
/// gives the entries of one more seed.
pub proof fn law_write_adds_next_seed(
    s: Generation,
    w: SeedWrite,
    before: Map<Seq<char>, Seq<char>>,
)
    requires
        s.wf(),
        !s.is_complete(),
        w.is_seed_of(s.generator(), s.written() + 1),
    ensures
        after_write(after_seeds(before, s.generator(), s.written()), w) == after_seeds(
            before,
            s.generator(),
            s.written() + 1,
        ),
{
}

/// After a successful generation of `count` seeds, with the built-in or a
/// caller-supplied strategy, into a location that held no entry, the location
/// holds exactly `count` entries, named `initial_seed_1` to
/// `initial_seed_<count>`, each holding the strategy's output.
pub proof fn law_generation_fills_location(g: Generator, count: nat)
    requires
        g.algo_type != GenAlgoType::Off,
    ensures
        ({
            let entries = after_seeds(Map::empty(), g, count);
            &&& entries.dom() == seed_names(count)
            &&& entries.dom().len() == count
            &&& forall|name| #[trigger]
                entries.contains_key(name) ==> entries[name] == g.algo.output()
        }),
{
    lemma_after_seeds(Map::empty(), g, count);
    lemma_seed_names_len(count);
    assert(Map::<Seq<char>, Seq<char>>::empty().dom() + seed_names(count) =~= seed_names(count));
}

/// A generation writes over the entries that the location held before, and
/// keeps the others: the location then holds its earlier entries and the
/// seeds, and each seed holds the strategy's output.
pub proof fn law_generation_keeps_other_entries(
    g: Generator,
    count: nat,
    before: Map<Seq<char>, Seq<char>>,
)
    ensures
        after_seeds(before, g, count).dom() == before.dom() + seed_names(count),
        forall|name|
            before.contains_key(name) && !seed_names(count).contains(name)
                ==> #[trigger] after_seeds(before, g, count)[name] == before[name],
        forall|name| #[trigger]
            seed_names(count).contains(name) ==> after_seeds(before, g, count)[name]
                == g.algo.output(),
{
    lemma_after_seeds(before, g, count);
}

/// Adopting the caller's seeds: whatever count is asked for, nothing is
/// written, the strategy is not invoked, and the seeds' location becomes the
/// caller's.
pub proof fn law_adoption_writes_nothing(
    s: Generation,
    g: Generator,
    loc: SeedLoc,
    algo: Option<GenAlgo>,
)
    requires
        g.configured(GenAlgoType::Off, Some(loc), algo) is Ok,
        s.generator() == g.configured(GenAlgoType::Off, Some(loc), algo)->Ok_0.materializing(),
        s.written() == 0,
    ensures
        s.is_complete(),
        s.generator().initial_seeds_loc == loc,
{
}

/// Choosing adoption without a location fails and leaves nothing to use.
pub proof fn law_adoption_needs_location(g: Generator, algo: Option<GenAlgo>)
    ensures
        g.configured(GenAlgoType::Off, None, algo) == Err::<Generator, GeneratorError>(
            GeneratorError::MissingSeedLocation,
        ),
{
}

/// Generating zero seeds writes nothing: a generation of zero seeds is
/// complete from the start, and the location keeps its entries.
pub proof fn law_zero_seeds_keep_location(s: Generation, before: Map<Seq<char>, Seq<char>>)
    requires
        s.wf(),
        s.total() == 0,
    ensures
        s.is_complete(),
        after_seeds(before, s.generator(), s.written()) == before,
{
}

/// When a write is refused, the location holds what it held before and the
/// seeds written before the refused one; neither that seed nor any later one
/// is among them.
pub proof fn law_refused_write_stops(s: Generation, before: Map<Seq<char>, Seq<char>>)
    requires
        s.wf(),
        !s.is_complete(),
    ensures
        after_seeds(before, s.generator(), s.written()).dom() == before.dom() + seed_names(
            s.written(),
        ),
        forall|j: nat|
            j > s.written() ==> !seed_names(s.written()).contains(#[trigger] seed_name_of(j)),
{
    lemma_after_seeds(before, s.generator(), s.written());
    assert forall|j: nat| j > s.written() implies !seed_names(s.written()).contains(
        #[trigger] seed_name_of(j),
    ) by {
        if seed_names(s.written()).contains(seed_name_of(j)) {
            let i = choose|i: nat| 1 <= i <= s.written() && seed_name_of(j) == #[trigger] seed_name_of(i);
            lemma_seed_name_injective(j, i);
        }
    }
}

} // verus!
