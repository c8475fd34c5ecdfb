//! Generation strategies, the mode that selects how seeds are obtained, and
//! seed locations.

use vstd::prelude::*;

verus! {

/// A producer of seed content.
///
/// Every strategy is pure and takes no argument, so each one stands for the
/// fixed text that it produces.
#[derive(Debug)]
pub enum GenAlgo {
    /// The placeholder installed before any strategy is chosen; its output
    /// marks a generator that was never configured.
    Empty,
    /// The strategy that ships with the library.
    Builtin,
    /// A strategy supplied by the caller, producing the given text.
    Custom(String),
}

impl GenAlgo {
    /// The content that this strategy produces on every invocation.
    pub open spec fn output(&self) -> Seq<char> {
        match self {
            GenAlgo::Empty => "Empty Generation Algorithm"@,
            GenAlgo::Builtin => "Default Generation Algorithm"@,
            GenAlgo::Custom(text) => text@,
        }
    }

    /// A caller-supplied strategy that produces `text`.
    pub fn custom(text: String) -> (r: GenAlgo)
        ensures
            r == GenAlgo::Custom(text),
    {
        GenAlgo::Custom(text)
    }

    /// Invokes the strategy once.
    pub fn produce(&self) -> (r: String)
        ensures
            r@ == self.output(),
    {
        match self {
            GenAlgo::Empty => String::from_str("Empty Generation Algorithm"),
            GenAlgo::Builtin => String::from_str("Default Generation Algorithm"),
            GenAlgo::Custom(text) => text.clone(),
        }
    }
}

impl Default for GenAlgo {
    /// The placeholder strategy, not the built-in one.
    fn default() -> (r: GenAlgo)
        ensures
            r == GenAlgo::Empty,
    {
        GenAlgo::Empty
    }
}

/// The built-in generation strategy.
pub fn default_gen_algo() -> (r: GenAlgo)
    ensures
        r == GenAlgo::Builtin,
{
    GenAlgo::Builtin
}

/// How the initial seeds are obtained.
#[derive(Clone, Copy, Debug, PartialEq, Eq, Structural)]
pub enum GenAlgoType {
    /// No generation: adopt the seeds found at a caller-provided location.
    Off,
    /// Generate with the built-in strategy.
    Default,
    /// Generate with a caller-supplied strategy.
    Customized,
}

impl GenAlgoType {
    /// The name of the mode.
    pub open spec fn name(self) -> Seq<char> {
        match self {
            GenAlgoType::Off => "Off"@,
            GenAlgoType::Default => "Default"@,
            GenAlgoType::Customized => "Customized"@,
        }
    }

    /// The name of the mode, for reports and logs.
    pub fn as_str(&self) -> (r: &'static str)
        ensures
            r@ == self.name(),
    {
        match self {
            GenAlgoType::Off => "Off",
            GenAlgoType::Default => "Default",
            GenAlgoType::Customized => "Customized",
        }
    }
}

impl Default for GenAlgoType {
    fn default() -> (r: GenAlgoType)
        ensures
            r == GenAlgoType::Default,
    {
        GenAlgoType::Default
    }
}

/// A location of seeds: a flat container of named entries.
#[derive(Debug)]
pub struct SeedLoc(pub String);

impl SeedLoc {
    /// The conventional location of generated seeds.
    pub open spec fn conventional() -> Seq<char> {
        "../seeds/initial"@
    }
}

impl Default for SeedLoc {
    fn default() -> (r: SeedLoc)
        ensures
            r.0@ == SeedLoc::conventional(),
    {
        SeedLoc(String::from_str("../seeds/initial"))
    }
}

} // verus!
