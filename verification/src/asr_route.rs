//! Which local recogniser a session is bound to.

use crate::domain::{AsrEngine, AsrPreference};
use crate::ports::EngineHealth;
use vstd::prelude::*;

verus! {

/// The semantic choice of recogniser frozen for one session.
#[derive(Clone, Copy, Debug, PartialEq, Eq, Structural)]
pub struct ResolvedAsrRoute {
    pub engine: AsrEngine,
}

impl ResolvedAsrRoute {
    pub fn new(engine: AsrEngine) -> (r: ResolvedAsrRoute)
        ensures
            r.engine == engine,
    {
        ResolvedAsrRoute { engine }
    }

    pub fn engine(self) -> (r: AsrEngine)
        ensures
            r == self.engine,
    {
        self.engine
    }
}

#[derive(Clone, Copy, Debug, PartialEq, Eq, Structural)]
pub enum AsrRouteError {
    NoHealthyEngine,
}

/// The health that was found of one engine.
pub open spec fn health_of(
    engine: AsrEngine,
    qwen_health: EngineHealth,
    whisper_health: EngineHealth,
) -> EngineHealth {
    match engine {
        AsrEngine::Qwen => qwen_health,
        AsrEngine::Whisper => whisper_health,
    }
}

/// The route to the preferred engine, where that engine is healthy. There is no
/// other route: the engine that was not chosen never stands in.
pub open spec fn spec_asr_route(
    preference: AsrPreference,
    qwen_health: EngineHealth,
    whisper_health: EngineHealth,
) -> Result<ResolvedAsrRoute, AsrRouteError> {
    if health_of(preference.spec_engine(), qwen_health, whisper_health) == EngineHealth::Healthy {
        Ok(ResolvedAsrRoute { engine: preference.spec_engine() })
    } else {
        Err(AsrRouteError::NoHealthyEngine)
    }
}

pub fn resolve_asr_route(
    preference: AsrPreference,
    qwen_health: EngineHealth,
    whisper_health: EngineHealth,
) -> (r: Result<ResolvedAsrRoute, AsrRouteError>)
    ensures
        r == spec_asr_route(preference, qwen_health, whisper_health),
{
    let engine = match preference {
        AsrPreference::Qwen => {
            if qwen_health != EngineHealth::Healthy {
                return Err(AsrRouteError::NoHealthyEngine);
            }
            AsrEngine::Qwen
        },
        AsrPreference::Whisper => {
            if whisper_health != EngineHealth::Healthy {
                return Err(AsrRouteError::NoHealthyEngine);
            }
            AsrEngine::Whisper
        },
    };
    Ok(ResolvedAsrRoute::new(engine))
}

/// A resolved route always leads to the engine that the user chose, and the
/// health of the other engine has no say in it.
pub proof fn no_engine_stands_in_for_the_chosen_one(
    preference: AsrPreference,
    qwen_health: EngineHealth,
    whisper_health: EngineHealth,
    other_health: EngineHealth,
)
    ensures
        match spec_asr_route(preference, qwen_health, whisper_health) {
            Ok(route) => route.engine == preference.spec_engine(),
            Err(_) => true,
        },
        preference == AsrPreference::Qwen ==> spec_asr_route(
            preference,
            qwen_health,
            whisper_health,
        ) == spec_asr_route(preference, qwen_health, other_health),
        preference == AsrPreference::Whisper ==> spec_asr_route(
            preference,
            qwen_health,
            whisper_health,
        ) == spec_asr_route(preference, other_health, whisper_health),
{
}

/// There is a route exactly where the chosen engine is healthy, and it leads to that
/// engine.
pub proof fn a_route_leads_to_the_healthy_engine_that_was_chosen(
    qwen_health: EngineHealth,
    whisper_health: EngineHealth,
    route: ResolvedAsrRoute,
)
    ensures
        spec_asr_route(AsrPreference::Qwen, qwen_health, whisper_health) == Ok::<
            ResolvedAsrRoute,
            AsrRouteError,
        >(route) <==> qwen_health is Healthy && route.engine is Qwen,
        spec_asr_route(AsrPreference::Whisper, qwen_health, whisper_health) == Ok::<
            ResolvedAsrRoute,
            AsrRouteError,
        >(route) <==> whisper_health is Healthy && route.engine is Whisper,
{
}

} // verus!
