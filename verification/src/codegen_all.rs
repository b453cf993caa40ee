//! Several code generations in a row.

use crate::config::Opts;
use vstd::prelude::*;

verus! {

/// Code generations that are under way: there is one to be run.
pub struct AllRun {
    configs: Vec<Opts>,
    all_symbols: Vec<String>,
    position: usize,
}

/// Where the generations stand.
pub enum AllProgress<E> {
    /// There is another generation to be run.
    Running(AllRun),
    /// The generations are over.
    Finished(Result<(), E>),
}

/// The generation `position` of `configs` is the next to be run, or all are over.
pub open spec fn goes_on<E>(
    progress: AllProgress<E>,
    configs: Seq<Opts>,
    all_symbols: Vec<String>,
    position: int,
) -> bool {
    if position < configs.len() {
        &&& progress matches AllProgress::Running(run)
        &&& run.configs() == configs
        &&& run.all_symbols() == all_symbols
        &&& run.position() == position
    } else {
        progress == AllProgress::<E>::Finished(Ok(()))
    }
}

/// `progress` is where `run` stands after its generation had `outcome`.
pub open spec fn follows<E>(
    run: AllRun,
    outcome: Result<(), E>,
    progress: AllProgress<E>,
) -> bool {
    match outcome {
        Ok(_) => goes_on(progress, run.configs(), run.all_symbols(), run.position() + 1),
        Err(error) => progress == AllProgress::Finished(Err::<(), E>(error)),
    }
}

impl AllRun {
    #[verifier::type_invariant]
    spec fn is_well_formed(self) -> bool {
        self.position < self.configs@.len()
    }

    /// The settings of all generations.
    pub closed spec fn configs(self) -> Seq<Opts> {
        self.configs@
    }

    /// The symbols of all generations.
    pub closed spec fn all_symbols(self) -> Vec<String> {
        self.all_symbols
    }

    /// How many generations have been run.
    pub closed spec fn position(self) -> int {
        self.position as int
    }

    /// The settings of the generation to be run.
    pub fn config(&self) -> (config: &Opts)
        ensures
            *config == self.configs()[self.position()],
    {
        proof {
            use_type_invariant(self);
        }
        &self.configs[self.position]
    }

    /// The symbols to run the generation with.
    pub fn symbols(&self) -> (all_symbols: &Vec<String>)
        ensures
            *all_symbols == self.all_symbols(),
    {
        &self.all_symbols
    }

    /// Goes on with the outcome of the generation that was to be run. The first failure ends them
    /// all.
    pub fn reply<E>(self, outcome: Result<(), E>) -> (progress: AllProgress<E>)
        ensures
            follows(self, outcome, progress),
    {
        proof {
            use_type_invariant(&self);
            assert(self.position < self.configs.len());
        }
        match outcome {
            Ok(_) => {
                let AllRun { configs, all_symbols, position } = self;
                let position: usize = position + 1;
                if position < configs.len() {
                    AllProgress::Running(AllRun { configs, all_symbols, position })
                } else {
                    AllProgress::Finished(Ok(()))
                }
            },
            Err(error) => AllProgress::Finished(Err(error)),
        }
    }
}

/// Starts the generations of `configs`, given their symbols or why those could not be told.
pub fn frb_codegen_all<E>(configs: Vec<Opts>, all_symbols: Result<Vec<String>, E>) -> (progress:
    AllProgress<E>)
    ensures
        match all_symbols {
            Ok(symbols) => goes_on(progress, configs@, symbols, 0),
            Err(error) => progress == AllProgress::Finished(Err::<(), E>(error)),
        },
{
    match all_symbols {
        Ok(all_symbols) => {
            if configs.len() > 0 {
                AllProgress::Running(AllRun { configs, all_symbols, position: 0 })
            } else {
                AllProgress::Finished(Ok(()))
            }
        },
        Err(error) => AllProgress::Finished(Err(error)),
    }
}

/// `states` are where the generations stand from the start on, one after each of `outcomes`.
pub open spec fn is_course<E>(states: Seq<AllProgress<E>>, outcomes: Seq<Result<(), E>>) -> bool {
    &&& states.len() == outcomes.len() + 1
    &&& forall|i: int|
        0 <= i < outcomes.len() ==> (#[trigger] states[i]) is Running && follows(
            states[i]->Running_0,
            outcomes[i],
            states[i + 1],
        )
}

/// The generations are run in order. They succeed exactly when each of them was run and succeeded,
/// and they fail with the first failure, after which none is run.
pub proof fn outcome_is_that_of_the_generations<E>(
    configs: Seq<Opts>,
    all_symbols: Vec<String>,
    states: Seq<AllProgress<E>>,
    outcomes: Seq<Result<(), E>>,
)
    requires
        is_course(states, outcomes),
        goes_on(states[0], configs, all_symbols, 0),
    ensures
        forall|i: int| 0 <= i < outcomes.len() - 1 ==> (#[trigger] outcomes[i]) is Ok,
        outcomes.len() <= configs.len(),
        match states.last() {
            AllProgress::Running(run) => {
                &&& outcomes.len() < configs.len()
                &&& outcomes.len() > 0 ==> outcomes.last() is Ok
                &&& run.configs() == configs
                &&& run.all_symbols() == all_symbols
                &&& run.position() == outcomes.len()
            },
            AllProgress::Finished(Ok(_)) => {
                &&& outcomes.len() == configs.len()
                &&& outcomes.len() > 0 ==> outcomes.last() is Ok
            },
            AllProgress::Finished(Err(error)) => {
                &&& outcomes.len() > 0
                &&& outcomes.last() == Err::<(), E>(error)
            },
        },
    decreases outcomes.len(),
{
    if outcomes.len() > 0 {
        let earlier = outcomes.drop_last();
        assert(states[outcomes.len() - 1] is Running);
        assert forall|i: int| 0 <= i < earlier.len() implies (
        #[trigger] states.drop_last()[i]) is Running && follows(
            states.drop_last()[i]->Running_0,
            earlier[i],
            states.drop_last()[i + 1],
        ) by {
            assert(states[i] is Running);
        }
        outcome_is_that_of_the_generations(configs, all_symbols, states.drop_last(), earlier);
        assert forall|i: int| 0 <= i < outcomes.len() - 1 implies (#[trigger] outcomes[i]) is Ok by {
            assert(outcomes[i] == earlier[i]);
        }
    }
}

} // verus!
