//! The closed set of benchmark scenarios and their canonical names.

use vstd::prelude::*;
use crate::text::same_text;

verus! {

/// A benchmark workload: one instruction, executed over and over.
#[derive(Copy, Clone, PartialEq, Eq, Debug, Structural)]
pub enum Scenario {
    /// Repeated 32-bit integer addition.
    AddI32,
    /// Repeated 32-bit integer exclusive or.
    XorI32,
}

/// Why a name could not be turned into a [`Scenario`].
#[derive(Copy, Clone, PartialEq, Eq, Debug, Structural)]
pub enum ParseError {
    /// The name is not the canonical name of any scenario.
    UnknownScenario,
}

/// Every scenario, in declaration order.
pub open spec fn registered() -> Seq<Scenario> {
    seq![Scenario::AddI32, Scenario::XorI32]
}

impl Scenario {
    /// The canonical name of the scenario.
    pub open spec fn name(self) -> Seq<char> {
        match self {
            Scenario::AddI32 => "add_i32"@,
            Scenario::XorI32 => "xor_i32"@,
        }
    }

    /// Whether `name` is the canonical name of some scenario.
    pub open spec fn is_name(name: Seq<char>) -> bool {
        exists|s: Scenario| #[trigger] s.name() == name
    }

    /// The scenario whose canonical name is `name`, if there is one. The
    /// match is exact and case-sensitive.
    pub open spec fn named(name: Seq<char>) -> Option<Scenario> {
        if name == Scenario::AddI32.name() {
            Some(Scenario::AddI32)
        } else if name == Scenario::XorI32.name() {
            Some(Scenario::XorI32)
        } else {
            None
        }
    }

    /// Returns the canonical name of the scenario.
    pub fn canonical_name(self) -> (name: &'static str)
        ensures
            name@ == self.name(),
    {
        match self {
            Scenario::AddI32 => "add_i32",
            Scenario::XorI32 => "xor_i32",
        }
    }

    /// Looks a scenario up by its canonical name. Any other string, however
    /// close, is rejected with [`ParseError::UnknownScenario`].
    pub fn parse(name: &str) -> (found: Result<Scenario, ParseError>)
        ensures
            found == match Scenario::named(name@) {
                Some(s) => Ok::<Scenario, ParseError>(s),
                None => Err(ParseError::UnknownScenario),
            },
            found.is_ok() <==> Scenario::is_name(name@),
            found matches Ok(s) ==> s.name() == name@,
    {
        proof {
            lemma_named_is_lookup(name@);
        }
        if same_text(name, "add_i32") {
            Ok(Scenario::AddI32)
        } else if same_text(name, "xor_i32") {
            Ok(Scenario::XorI32)
        } else {
            Err(ParseError::UnknownScenario)
        }
    }

    /// Returns every scenario once, in declaration order.
    pub fn all_scenarios() -> (all: Vec<Scenario>)
        ensures
            all@ == registered(),
    {
        let mut all: Vec<Scenario> = Vec::new();
        all.push(Scenario::AddI32);
        all.push(Scenario::XorI32);
        assert(all@ =~= registered());
        all
    }
}

/// Distinct scenarios have distinct canonical names.
pub proof fn lemma_names_distinct(a: Scenario, b: Scenario)
    ensures
        a.name() == b.name() <==> a == b,
{
    reveal_strlit("add_i32");
    reveal_strlit("xor_i32");
    assert("add_i32"@[0] != "xor_i32"@[0]);
}

/// Looking up the canonical name of a scenario finds that scenario again.
pub proof fn lemma_name_round_trip(s: Scenario)
    ensures
        Scenario::named(s.name()) == Some(s),
        Scenario::named(s.name()).unwrap().name() == s.name(),
{
    lemma_names_distinct(Scenario::AddI32, Scenario::XorI32);
}

/// The lookup succeeds on the canonical names and on nothing else, and what
/// it finds bears the name that was looked up.
pub proof fn lemma_named_is_lookup(name: Seq<char>)
    ensures
        Scenario::named(name).is_some() <==> Scenario::is_name(name),
        forall|s: Scenario| Scenario::named(name) == Some(s) <==> #[trigger] s.name() == name,
{
    lemma_names_distinct(Scenario::AddI32, Scenario::XorI32);
    if Scenario::named(name).is_some() {
        let s = Scenario::named(name).unwrap();
        assert(s.name() == name);
    }
}

/// The enumeration holds every scenario, and none of them twice.
pub proof fn lemma_registered_complete()
    ensures
        forall|s: Scenario| registered().contains(s),
        registered().no_duplicates(),
        registered().len() == 2,
{
    assert(registered()[0] == Scenario::AddI32);
    assert(registered()[1] == Scenario::XorI32);
    assert forall|s: Scenario| registered().contains(s) by {
        match s {
            Scenario::AddI32 => {
                assert(registered()[0] == s);
            },
            Scenario::XorI32 => {
                assert(registered()[1] == s);
            },
        }
    }
}

} // verus!
