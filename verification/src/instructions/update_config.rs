use vstd::prelude::*;
use crate::errors::GameError;
use crate::states::GameConfig;

verus! {

/// The fields of a configuration that are to change. A field left out stays
/// as it is.
#[derive(Clone, Copy, Debug)]
pub struct UpdateConfigParams {
    pub base_survival_ppm: Option<u32>,
    pub decay_per_dive_ppm: Option<u32>,
    pub min_survival_ppm: Option<u32>,
    pub treasure_multiplier_num: Option<u16>,
    pub treasure_multiplier_den: Option<u16>,
    pub max_payout_multiplier: Option<u16>,
    pub max_dives: Option<u16>,
    pub min_bet: Option<u64>,
    pub max_bet: Option<u64>,
}

impl Default for UpdateConfigParams {
    fn default() -> (params: UpdateConfigParams)
        ensures
            params == (UpdateConfigParams {
                base_survival_ppm: None,
                decay_per_dive_ppm: None,
                min_survival_ppm: None,
                treasure_multiplier_num: None,
                treasure_multiplier_den: None,
                max_payout_multiplier: None,
                max_dives: None,
                min_bet: None,
                max_bet: None,
            }),
    {
        UpdateConfigParams {
            base_survival_ppm: None,
            decay_per_dive_ppm: None,
            min_survival_ppm: None,
            treasure_multiplier_num: None,
            treasure_multiplier_den: None,
            max_payout_multiplier: None,
            max_dives: None,
            min_bet: None,
            max_bet: None,
        }
    }
}

/// `config` with the fields that `params` name replaced, before it is
/// validated.
pub open spec fn updated_config(config: GameConfig, params: &UpdateConfigParams) -> GameConfig {
    GameConfig {
        base_survival_ppm: params.base_survival_ppm.unwrap_or(config.base_survival_ppm),
        decay_per_dive_ppm: params.decay_per_dive_ppm.unwrap_or(config.decay_per_dive_ppm),
        min_survival_ppm: params.min_survival_ppm.unwrap_or(config.min_survival_ppm),
        treasure_multiplier_num: params.treasure_multiplier_num.unwrap_or(
            config.treasure_multiplier_num,
        ),
        treasure_multiplier_den: params.treasure_multiplier_den.unwrap_or(
            config.treasure_multiplier_den,
        ),
        max_payout_multiplier: params.max_payout_multiplier.unwrap_or(config.max_payout_multiplier),
        max_dives: params.max_dives.unwrap_or(config.max_dives),
        min_bet: params.min_bet.unwrap_or(config.min_bet),
        max_bet: params.max_bet.unwrap_or(config.max_bet),
        ..config
    }
}

/// Replaces the fields that `params` name and validates the configuration as
/// a whole. A configuration that would become invalid stays as it is.
pub fn update_config(
    config: &mut GameConfig,
    params: &UpdateConfigParams,
) -> (res: Result<(), GameError>)
    ensures
        res is Ok <==> updated_config(*old(config), params).is_valid(),
        res is Ok ==> *final(config) == updated_config(*old(config), params),
        res is Err ==> res == Err::<(), GameError>(GameError::InvalidConfig)
            && *final(config) == *old(config),
{
    let mut candidate = *config;
    if let Some(value) = params.base_survival_ppm {
        candidate.base_survival_ppm = value;
    }
    if let Some(value) = params.decay_per_dive_ppm {
        candidate.decay_per_dive_ppm = value;
    }
    if let Some(value) = params.min_survival_ppm {
        candidate.min_survival_ppm = value;
    }
    if let Some(value) = params.treasure_multiplier_num {
        candidate.treasure_multiplier_num = value;
    }
    if let Some(value) = params.treasure_multiplier_den {
        candidate.treasure_multiplier_den = value;
    }
    if let Some(value) = params.max_payout_multiplier {
        candidate.max_payout_multiplier = value;
    }
    if let Some(value) = params.max_dives {
        candidate.max_dives = value;
    }
    if let Some(value) = params.min_bet {
        candidate.min_bet = value;
    }
    if let Some(value) = params.max_bet {
        candidate.max_bet = value;
    }
    match candidate.validate() {
        Ok(()) => {
            *config = candidate;
            Ok(())
        },
        Err(e) => Err(e),
    }
}

} // verus!
