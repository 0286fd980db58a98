use vstd::prelude::*;
use rand::rngs::ThreadRng;
use crate::random::{Probability, drawn_with, random_state};

verus! {

/// A grid state that is drawn anew on every update, each cell alive with a
/// probability of seven in ten.
pub struct GameState {
    pub rng: ThreadRng,
    pub state: Vec<u32>,
}

impl GameState {
    /// The probability with which a cell is drawn alive.
    pub open spec fn spec_threshold() -> Probability {
        Probability { numerator: 7, denominator: 10 }
    }

    /// The probability with which a cell is drawn alive.
    #[verifier::when_used_as_spec(spec_threshold)]
    pub fn threshold() -> (threshold: Probability)
        ensures
            threshold == Self::spec_threshold(),
            threshold.wf(),
    {
        Probability { numerator: 7, denominator: 10 }
    }

    /// A random state of `num_elements` cells.
    pub fn new(num_elements: usize) -> (game_state: Self)
        ensures
            game_state.state.len() == num_elements,
            drawn_with(game_state.state@, Self::spec_threshold()),
    {
        let mut rng = rand::rng();
        let threshold = Self::threshold();
        let state = random_state(&mut rng, num_elements, &threshold);
        Self { rng, state }
    }

    /// Draws the state anew. The number of cells stays.
    pub fn update(&mut self)
        ensures
            final(self).state.len() == old(self).state.len(),
            drawn_with(final(self).state@, Self::spec_threshold()),
    {
        let threshold = Self::threshold();
        self.state = random_state(&mut self.rng, self.state.len(), &threshold);
    }

    /// The cells of the state.
    pub fn get_state(&self) -> (state: &Vec<u32>)
        ensures
            state@ == self.state@,
    {
        &self.state
    }
}

} // verus!
