pub mod aldrin;
pub mod aldrin_v2;
pub mod alphaq;
pub mod bisonfi;
pub mod fraudsworth_conversion_vault;
pub mod fraudsworth_tax;
pub mod fusion_amm;
pub mod futarchy;
pub mod gamma;
pub mod heaven;
pub mod huma_finance;
pub mod hylo_exchange;
pub mod jupiter_perpetuals;
pub mod manifest;
pub mod meteora_damm;
pub mod meteora_damm_v2;
pub mod meteora_dlmm;
pub mod meteora_dynamic_bonding_curve;
pub mod nirvana_governance;
pub mod obric_v2;
pub mod onre;
pub mod ore_lst;
pub mod oxedium;
pub mod perena;
pub mod phoenix_legacy;
pub mod pump_amm;
pub mod raydium_amm_v4;
pub mod raydium_clmm;
pub mod rise;
pub mod sanctum_staking;
pub mod saros_amm;
pub mod saros_dlmm;
pub mod scale_amm;
pub mod scorch;
pub mod solfi_v2;
pub mod solv_finance;
pub mod stabble_stable;
pub mod synatra;
pub mod tessera_v;
pub mod unitas_vault;
pub mod voltr;
pub mod xorca;
pub mod zerofi;
