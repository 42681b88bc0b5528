use vstd::prelude::*;
use crate::errors::GameError;
use crate::states::GameConfig;

verus! {

/// The values to start a configuration with. A field left out takes its
/// default.
#[derive(Clone, Copy, Debug)]
pub struct GameConfigParams {
    pub base_survival_ppm: Option<u32>,
    pub decay_per_dive_ppm: Option<u32>,
    pub min_survival_ppm: Option<u32>,
    pub treasure_multiplier_num: Option<u16>,
    pub treasure_multiplier_den: Option<u16>,
    pub max_payout_multiplier: Option<u16>,
    pub max_dives: Option<u16>,
    pub min_bet: Option<u64>,
    pub max_bet: Option<u64>,
}

impl Default for GameConfigParams {
    fn default() -> (params: GameConfigParams)
        ensures
            params == (GameConfigParams {
                base_survival_ppm: None,
                decay_per_dive_ppm: None,
                min_survival_ppm: None,
                treasure_multiplier_num: None,
                treasure_multiplier_den: None,
                max_payout_multiplier: None,
                max_dives: None,
                min_bet: None,
                max_bet: None,
            }),
    {
        GameConfigParams {
            base_survival_ppm: None,
            decay_per_dive_ppm: None,
            min_survival_ppm: None,
            treasure_multiplier_num: None,
            treasure_multiplier_den: None,
            max_payout_multiplier: None,
            max_dives: None,
            min_bet: None,
            max_bet: None,
        }
    }
}

/// The configuration that `params` describe, before it is validated: each
/// field as given, or at its default where it is left out.
pub open spec fn config_from_params(
    admin: [u8; 32],
    bump: u8,
    params: &GameConfigParams,
) -> GameConfig {
    let defaults = GameConfig::default_values();
    GameConfig {
        admin,
        base_survival_ppm: params.base_survival_ppm.unwrap_or(defaults.0),
        decay_per_dive_ppm: params.decay_per_dive_ppm.unwrap_or(defaults.1),
        min_survival_ppm: params.min_survival_ppm.unwrap_or(defaults.2),
        treasure_multiplier_num: params.treasure_multiplier_num.unwrap_or(defaults.3),
        treasure_multiplier_den: params.treasure_multiplier_den.unwrap_or(defaults.4),
        max_payout_multiplier: params.max_payout_multiplier.unwrap_or(defaults.5),
        max_dives: params.max_dives.unwrap_or(defaults.6),
        min_bet: params.min_bet.unwrap_or(defaults.7),
        max_bet: params.max_bet.unwrap_or(defaults.8),
        bump,
    }
}

/// Builds the configuration that `params` describe for `admin` and accepts
/// it only if it is valid.
pub fn init_config(
    admin: [u8; 32],
    bump: u8,
    params: &GameConfigParams,
) -> (res: Result<GameConfig, GameError>)
    ensures
        res is Ok <==> config_from_params(admin, bump, params).is_valid(),
        res is Ok ==> res == Ok::<GameConfig, GameError>(config_from_params(admin, bump, params)),
        res is Err ==> res == Err::<GameConfig, GameError>(GameError::InvalidConfig),
{
    let defaults = GameConfig::default_config();
    let config = GameConfig {
        admin,
        base_survival_ppm: params.base_survival_ppm.unwrap_or(defaults.0),
        decay_per_dive_ppm: params.decay_per_dive_ppm.unwrap_or(defaults.1),
        min_survival_ppm: params.min_survival_ppm.unwrap_or(defaults.2),
        treasure_multiplier_num: params.treasure_multiplier_num.unwrap_or(defaults.3),
        treasure_multiplier_den: params.treasure_multiplier_den.unwrap_or(defaults.4),
        max_payout_multiplier: params.max_payout_multiplier.unwrap_or(defaults.5),
        max_dives: params.max_dives.unwrap_or(defaults.6),
        min_bet: params.min_bet.unwrap_or(defaults.7),
        max_bet: params.max_bet.unwrap_or(defaults.8),
        bump,
    };
    match config.validate() {
        Ok(()) => Ok(config),
        Err(e) => Err(e),
    }
}

} // verus!
