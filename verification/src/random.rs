use vstd::prelude::*;
use rand::Rng;
use rand::rngs::ThreadRng;

verus! {

/// `rand::rngs::ThreadRng`, the generator each thread owns. Nothing is known
/// of its state.
#[verifier::external_type_specification]
#[verifier::external_body]
pub struct ExThreadRng(rand::rngs::ThreadRng);

/// `rand::rng`: a handle to the calling thread's generator. Nothing is
/// claimed of the handle. The call takes no argument; it fails only where
/// the operating system has no entropy to seed the thread's generator with.
pub assume_specification[ rand::rng ]() -> (rng: ThreadRng);

/// A probability given as a ratio of two integers.
#[derive(Copy, Clone, Debug)]
pub struct Probability {
    pub numerator: u32,
    pub denominator: u32,
}

impl Probability {
    /// A probability lies between zero and one and has a denominator.
    pub open spec fn wf(&self) -> bool {
        self.denominator > 0 && self.numerator <= self.denominator
    }

    /// Whether every draw is a hit.
    pub open spec fn certain(&self) -> bool {
        self.numerator == self.denominator
    }

    /// Whether no draw is a hit.
    pub open spec fn impossible(&self) -> bool {
        self.numerator == 0
    }

    /// The probability `numerator / denominator`, or `None` where that is
    /// no probability: the denominator is zero or the ratio exceeds one.
    pub fn new(numerator: u32, denominator: u32) -> (chance: Option<Self>)
        ensures
            chance is Some <==> denominator > 0 && numerator <= denominator,
            chance matches Some(p) ==> p.numerator == numerator && p.denominator == denominator
                && p.wf(),
    {
        if denominator > 0 && numerator <= denominator {
            Some(Self { numerator, denominator })
        } else {
            None
        }
    }

    /// Whether the ratio is a probability.
    pub fn is_wf(&self) -> (ok: bool)
        ensures
            ok == self.wf(),
    {
        self.denominator > 0 && self.numerator <= self.denominator
    }
}

/// `rand::Rng::random_ratio` on the thread's generator: a draw that is a hit
/// with probability `numerator / denominator`. The call panics unless the
/// ratio is a probability, which the precondition rules out. Of the draw
/// only the two certain cases are claimed: a ratio of one always hits, a
/// ratio of zero never does.
#[verifier::external_body]
fn random_ratio(rng: &mut ThreadRng, numerator: u32, denominator: u32) -> (hit: bool)
    requires
        denominator > 0,
        numerator <= denominator,
    ensures
        numerator == denominator ==> hit,
        numerator == 0 ==> !hit,
{
    rng.random_ratio(numerator, denominator)
}

/// Whether `state` could have come out of drawing every cell with
/// probability `threshold`: each cell is zero or one, and where the
/// probability leaves no choice, so is the cell.
pub open spec fn drawn_with(state: Seq<u32>, threshold: Probability) -> bool {
    forall|i: int|
        0 <= i < state.len() ==> {
            &&& #[trigger] state[i] <= 1
            &&& threshold.certain() ==> state[i] == 1
            &&& threshold.impossible() ==> state[i] == 0
        }
}

/// A fresh grid state of `num_elements` cells, each drawn alive with
/// probability `threshold`, independently of the others.
pub fn random_state(rng: &mut ThreadRng, num_elements: usize, threshold: &Probability) -> (state:
    Vec<u32>)
    requires
        threshold.wf(),
    ensures
        state.len() == num_elements,
        drawn_with(state@, *threshold),
{
    let mut state: Vec<u32> = Vec::new();
    let mut i: usize = 0;
    while i < num_elements
        invariant
            threshold.wf(),
            i <= num_elements,
            state.len() == i,
            drawn_with(state@, *threshold),
        decreases num_elements - i,
    {
        let hit: bool = random_ratio(rng, threshold.numerator, threshold.denominator);
        let cell: u32 = if hit {
            1
        } else {
            0
        };
        state.push(cell);
        i = i + 1;
    }
    state
}

} // verus!
