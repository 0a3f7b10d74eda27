mod tracker;

pub use tracker::{
    admits, admits_spec, law_busy_look_restarts, law_settled_iff_two_quiet_looks,
    law_streak_follows_history, next_streak, quiet, settled, spawn_outcome, spawn_outcome_on, spawn_outcome_seen, streak_after, Observation, Origin,
    SpawnError, Tasks, WaitLoop, WaitStep,
};
