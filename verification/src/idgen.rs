//! Identifier generator: human-readable, collision-risked names made of
//! two adjectives and an animal noun drawn at random from fixed,
//! compiled-in word lists.

use vstd::prelude::*;
use vstd::string::StringExecFns;
use random_fast_rng::Random;

verus! {

/// The fixed adjective list, as character sequences.
pub open spec fn adjective_views() -> Seq<Seq<char>> {
    seq![
        "ancient"@,
        "amber"@,
        "bold"@,
        "brisk"@,
        "calm"@,
        "clever"@,
        "crimson"@,
        "daring"@,
        "dusty"@,
        "eager"@,
        "fancy"@,
        "gentle"@,
        "golden"@,
        "hasty"@,
        "humble"@,
        "ivory"@,
        "jolly"@,
        "keen"@,
        "lively"@,
        "mellow"@,
        "noble"@,
        "proud"@,
        "silent"@,
        "witty"@,
    ]
}

/// The fixed animal list, as character sequences.
pub open spec fn animal_views() -> Seq<Seq<char>> {
    seq![
        "badger"@,
        "bison"@,
        "crane"@,
        "dingo"@,
        "falcon"@,
        "ferret"@,
        "gecko"@,
        "heron"@,
        "ibex"@,
        "jackal"@,
        "koala"@,
        "lemur"@,
        "marmot"@,
        "newt"@,
        "ocelot"@,
        "otter"@,
        "panther"@,
        "quail"@,
        "raven"@,
        "shrew"@,
        "tapir"@,
        "viper"@,
        "walrus"@,
        "wombat"@,
    ]
}

/// `s` is a name the generator can produce: two adjectives from the
/// adjective list followed by one animal from the animal list.
pub open spec fn is_generated_name(s: Seq<char>) -> bool {
    exists|i: int, j: int, k: int|
        0 <= i < adjective_views().len() && 0 <= j < adjective_views().len() && 0 <= k
            < animal_views().len() && s == adjective_views()[i] + adjective_views()[j]
            + animal_views()[k]
}

/// The adjective list as executable strings.
pub fn adjectives() -> (r: Vec<&'static str>)
    ensures
        r@.len() == adjective_views().len(),
        forall|i: int| 0 <= i < r@.len() ==> r@[i]@ == adjective_views()[i],
{
    let v: Vec<&'static str> = vec![
        "ancient",
        "amber",
        "bold",
        "brisk",
        "calm",
        "clever",
        "crimson",
        "daring",
        "dusty",
        "eager",
        "fancy",
        "gentle",
        "golden",
        "hasty",
        "humble",
        "ivory",
        "jolly",
        "keen",
        "lively",
        "mellow",
        "noble",
        "proud",
        "silent",
        "witty",
    ];
    v
}

/// The animal list as executable strings.
pub fn animals() -> (r: Vec<&'static str>)
    ensures
        r@.len() == animal_views().len(),
        forall|i: int| 0 <= i < r@.len() ==> r@[i]@ == animal_views()[i],
{
    let v: Vec<&'static str> = vec![
        "badger",
        "bison",
        "crane",
        "dingo",
        "falcon",
        "ferret",
        "gecko",
        "heron",
        "ibex",
        "jackal",
        "koala",
        "lemur",
        "marmot",
        "newt",
        "ocelot",
        "otter",
        "panther",
        "quail",
        "raven",
        "shrew",
        "tapir",
        "viper",
        "walrus",
        "wombat",
    ];
    v
}

/// Relies on `random_fast_rng::FastRng::new`, which seeds a generator
/// from the system time, and `random_trait::Random::gen`, which draws an
/// arbitrary machine word from it. Nothing is promised of the drawn
/// values.
#[verifier::external_body]
fn draw_indices() -> (r: (usize, usize, usize))
{
    let mut rng = random_fast_rng::FastRng::new();
    (rng.gen::<usize>(), rng.gen::<usize>(), rng.gen::<usize>())
}

/// Generate a fresh object identifier: two random adjectives and a
/// random animal noun. Uniqueness is probabilistic, never checked
/// against existing objects.
pub fn generate() -> (r: String)
    ensures
        is_generated_name(r@),
{
    let adjs = adjectives();
    let animals_list = animals();
    let (d0, d1, d2) = draw_indices();
    let i = d0 % adjs.len();
    let j = d1 % adjs.len();
    let k = d2 % animals_list.len();
    let mut r = String::new();
    r.append(adjs[i]);
    r.append(adjs[j]);
    r.append(animals_list[k]);
    proof {
        assert(r@ =~= adjective_views()[i as int] + adjective_views()[j as int]
            + animal_views()[k as int]);
    }
    r
}

} // verus!
