//! The generator: a two-phase protocol that first chooses a strategy, then
//! materializes the seeds.

use vstd::prelude::*;

use crate::naming::{seed_name, seed_name_of};
use crate::strategy::{default_gen_algo, GenAlgo, GenAlgoType, SeedLoc};

verus! {

/// Errors that configuration and materialization report to the caller.
#[derive(Clone, Copy, Debug, PartialEq, Eq, Structural)]
pub enum GeneratorError {
    /// Adoption of existing seeds was chosen without a (non-empty) location.
    MissingSeedLocation,
    /// The seed store refused the write of the seed with this 1-based index;
    /// the seeds written before it stay where they are.
    FailedToWriteSeed { index: u32 },
}

/// A seed generator.
#[derive(Debug)]
pub struct Generator {
    /// The strategy used to produce seed content.
    pub algo: GenAlgo,
    /// How the seeds are obtained.
    pub algo_type: GenAlgoType,
    /// Where the caller's own seeds are, when they are adopted.
    pub users_seeds_loc: SeedLoc,
    /// Where the seeds are once materialized.
    pub initial_seeds_loc: SeedLoc,
}

/// Whether an optional location is present and non-empty.
pub open spec fn location_given(location: Option<SeedLoc>) -> bool {
    match location {
        Some(loc) => loc.0@.len() > 0,
        None => false,
    }
}

impl Generator {
    /// A generator that chose adoption holds a location to adopt.
    pub open spec fn wf(&self) -> bool {
        self.algo_type == GenAlgoType::Off ==> self.users_seeds_loc.0@.len() > 0
    }

    /// The state of a new generator: placeholder strategy, default mode, no
    /// location of the caller's own, seeds at the conventional location.
    pub open spec fn is_initial(&self) -> bool {
        &&& self.algo == GenAlgo::Empty
        &&& self.algo_type == GenAlgoType::Default
        &&& self.users_seeds_loc.0@.len() == 0
        &&& self.initial_seeds_loc.0@ == SeedLoc::conventional()
    }

    /// The outcome of choosing a strategy.
    pub open spec fn configured(
        self,
        algo_type: GenAlgoType,
        location: Option<SeedLoc>,
        algo: Option<GenAlgo>,
    ) -> Result<Generator, GeneratorError> {
        match algo_type {
            GenAlgoType::Off => if location_given(location) {
                Ok(Generator { users_seeds_loc: location->0, algo_type: GenAlgoType::Off, ..self })
            } else {
                Err(GeneratorError::MissingSeedLocation)
            },
            GenAlgoType::Default => Ok(
                Generator { algo: GenAlgo::Builtin, algo_type: GenAlgoType::Default, ..self },
            ),
            GenAlgoType::Customized => Ok(
                Generator {
                    algo: match algo {
                        Some(a) => a,
                        None => self.algo,
                    },
                    algo_type: GenAlgoType::Customized,
                    ..self
                },
            ),
        }
    }

    /// A new generator.
    pub fn new() -> (r: Generator)
        ensures
            r.is_initial(),
            r.wf(),
    {
        Generator {
            algo: GenAlgo::default(),
            algo_type: GenAlgoType::default(),
            users_seeds_loc: SeedLoc(String::new()),
            initial_seeds_loc: SeedLoc::default(),
        }
    }

    /// Chooses how seeds are obtained. `Off` adopts the seeds at `location`,
    /// which must be given and non-empty; `Default` installs the built-in
    /// strategy; `Customized` installs `algo`, or keeps the current strategy
    /// when none is given.
    pub fn use_algo(
        self,
        algo_type: GenAlgoType,
        location: Option<SeedLoc>,
        algo: Option<GenAlgo>,
    ) -> (r: Result<Generator, GeneratorError>)
        ensures
            r == self.configured(algo_type, location, algo),
            r is Ok ==> r->Ok_0.wf(),
    {
        let mut g = self;
        match algo_type {
            GenAlgoType::Off => {
                match location {
                    Some(loc) => {
                        if loc.0.as_str().is_empty() {
                            return Err(GeneratorError::MissingSeedLocation);
                        }
                        g.users_seeds_loc = loc;
                    },
                    None => {
                        return Err(GeneratorError::MissingSeedLocation);
                    },
                }
                g.algo_type = GenAlgoType::Off;
                Ok(g)
            },
            GenAlgoType::Default => {
                g.algo = default_gen_algo();
                g.algo_type = GenAlgoType::Default;
                Ok(g)
            },
            GenAlgoType::Customized => {
                if let Some(a) = algo {
                    g.algo = a;
                }
                g.algo_type = GenAlgoType::Customized;
                Ok(g)
            },
        }
    }
}

impl Generator {
    /// The generator as it stands while its seeds are materialized: adoption
    /// points the seeds' location at the caller's own; generation keeps it.
    pub open spec fn materializing(self) -> Generator {
        if self.algo_type == GenAlgoType::Off {
            Generator { initial_seeds_loc: self.users_seeds_loc, ..self }
        } else {
            self
        }
    }

    /// Begins materializing `num` seeds. Adoption ignores `num` and needs no
    /// write; generation asks for `num` writes, one per index `1..=num`, in
    /// increasing order (see [`Generation`]).
    pub fn generate(self, num: u32) -> (r: Generation)
        ensures
            r.wf(),
            r.generator() == self.materializing(),
            r.total() == num,
            r.written() == 0,
    {
        let mut g = self;
        if g.algo_type == GenAlgoType::Off {
            g.initial_seeds_loc = SeedLoc(g.users_seeds_loc.0.clone());
        }
        Generation { generator: g, total: num, written: 0 }
    }
}

/// A request to the seed store: write `content` as the entry `name` of
/// `location`, creating or overwriting it.
#[derive(Debug)]
pub struct SeedWrite {
    pub location: String,
    pub name: String,
    pub content: String,
}

impl SeedWrite {
    /// This is the write of seed `index` of `g` to the location of its seeds.
    pub open spec fn is_seed_of(&self, g: Generator, index: nat) -> bool {
        &&& self.location@ == g.initial_seeds_loc.0@
        &&& self.name@ == seed_name_of(index)
        &&& self.content@ == g.algo.output()
    }

    /// The path of the entry: the location and the name, joined by `/`.
    pub fn path(&self) -> (r: String)
        ensures
            r@ == self.location@ + seq!['/'] + self.name@,
    {
        let sep = "/";
        proof {
            reveal_strlit("/");
        }
        let mut p = self.location.clone();
        p.append(sep);
        p.append(self.name.as_str());
        p
    }
}

/// Seeds being materialized.
///
/// The caller asks for the pending write with [`Generation::next_write`],
/// performs it on the seed store and reports the outcome with
/// [`Generation::record`], until no write is pending; then
/// [`Generation::finish`] hands back the generator. The first refused write
/// ends the materialization: nothing is retried and nothing is undone.
#[derive(Debug)]
pub struct Generation {
    generator: Generator,
    total: u32,
    written: u32,
}

impl Generation {
    /// The generator whose seeds are materialized.
    pub closed spec fn generator(&self) -> Generator {
        self.generator
    }

    /// How many seeds were asked for.
    pub closed spec fn total(&self) -> nat {
        self.total as nat
    }

    /// How many writes the seed store has accepted so far.
    pub closed spec fn written(&self) -> nat {
        self.written as nat
    }

    pub open spec fn wf(&self) -> bool {
        &&& self.written() <= self.total()
        &&& self.total() <= u32::MAX
    }

    /// Seeds are adopted, not generated.
    pub open spec fn adopts(&self) -> bool {
        self.generator().algo_type == GenAlgoType::Off
    }

    /// No write is pending.
    pub open spec fn is_complete(&self) -> bool {
        self.adopts() || self.written() == self.total()
    }

    /// The write that comes next, if any; it invokes the strategy once.
    pub fn next_write(&self) -> (r: Option<SeedWrite>)
        requires
            self.wf(),
        ensures
            self.is_complete() ==> r is None,
            !self.is_complete() ==> r is Some && r->0.is_seed_of(self.generator(), self.written() + 1),
    {
        if self.generator.algo_type == GenAlgoType::Off || self.written == self.total {
            None
        } else {
            let content = self.generator.algo.produce();
            Some(
                SeedWrite {
                    location: self.generator.initial_seeds_loc.0.clone(),
                    name: seed_name(self.written + 1),
                    content,
                },
            )
        }
    }

    /// Records whether the seed store accepted the pending write.
    pub fn record(self, accepted: bool) -> (r: Result<Generation, GeneratorError>)
        requires
            self.wf(),
            !self.is_complete(),
        ensures
            accepted ==> r is Ok,
            !accepted ==> r == Err::<Generation, GeneratorError>(
                GeneratorError::FailedToWriteSeed { index: (self.written() + 1) as u32 },
            ),
            r is Ok ==> {
                let n = r->Ok_0;
                &&& n.wf()
                &&& n.generator() == self.generator()
                &&& n.total() == self.total()
                &&& n.written() == self.written() + 1
            },
    {
        if accepted {
            Ok(Generation { written: self.written + 1, ..self })
        } else {
            Err(GeneratorError::FailedToWriteSeed { index: self.written + 1 })
        }
    }

    /// Ends the materialization.
    pub fn finish(self) -> (r: Generator)
        requires
            self.is_complete(),
        ensures
            r == self.generator(),
    {
        self.generator
    }
}

impl Default for Generator {
    fn default() -> (r: Generator)
        ensures
            r.is_initial(),
    {
        Generator::new()
    }
}

} // verus!
