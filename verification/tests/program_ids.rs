use beethoven_swaps::protocols;
use solana_address::Address;

fn decoded(s: &str) -> [u8; 32] {
    Address::from_str_const(s).to_bytes()
}

#[test]
fn program_ids_match_their_base58_forms() {
    assert_eq!(protocols::aldrin::ALDRIN_PROGRAM_ID, decoded("AMM55ShdkoGRB5jVYPjWziwk8m5MpwyDgsMWHaMSQWH6"));
    assert_eq!(protocols::aldrin_v2::ALDRIN_V2_PROGRAM_ID, decoded("CURVGoZn8zycx6FXwwevgBTB2gVvdbGTEpvMJDbgs2t4"));
    assert_eq!(protocols::alphaq::ALPHAQ_PROGRAM_ID, decoded("ALPHAQmeA7bjrVuccPsYPiCvsi428SNwte66Srvs4pHA"));
    assert_eq!(protocols::bisonfi::BISONFI_PROGRAM_ID, decoded("BiSoNHVpsVZW2F7rx2eQ59yQwKxzU5NvBcmKshCSUypi"));
    assert_eq!(protocols::fraudsworth_conversion_vault::FRAUDSWORTH_CONVERSION_VAULT_PROGRAM_ID, decoded("5uawA6ehYTu69Ggvm3LSK84qFawPKxbWgfngwj15NRJ"));
    assert_eq!(protocols::fraudsworth_tax::FRAUDSWORTH_TAX_PROGRAM_ID, decoded("43fZGRtmEsP7ExnJE1dbTbNjaP1ncvVmMPusSeksWGEj"));
    assert_eq!(protocols::fusion_amm::FUSION_AMM_PROGRAM_ID, decoded("fUSioN9YKKSa3CUC2YUc4tPkHJ5Y6XW1yz8y6F7qWz9"));
    assert_eq!(protocols::futarchy::FUTARCHY_PROGRAM_ID, decoded("FUTARELBfJfQ8RDGhg1wdhddq1odMAJUePHFuBYfUxKq"));
    assert_eq!(protocols::gamma::GAMMA_PROGRAM_ID, decoded("GAMMA7meSFWaBXF25oSUgmGRwaW6sCMFLmBNiMSdbHVT"));
    assert_eq!(protocols::heaven::HEAVEN_PROGRAM_ID, decoded("HEAVENoP2qxoeuF8Dj2oT1GHEnu49U5mJYkdeC8BAX2o"));
    assert_eq!(protocols::huma_finance::HUMA_FINANCE_PROGRAM_ID, decoded("HumaXepHnjaRCpjYTokxY4UtaJcmx41prQ8cxGmFC5fn"));
    assert_eq!(protocols::hylo_exchange::HYLO_EXCHANGE_PROGRAM_ID, decoded("HYEXCHtHkBagdStcJCp3xbbb9B7sdMdWXFNj6mdsG4hn"));
    assert_eq!(protocols::hylo_exchange::HYUSD_STABLECOIN_AUTH, decoded("CfuSViqf6wvUKEprLhtuCsSanvfAsMbDmkAW92FP95qe"));
    assert_eq!(protocols::jupiter_perpetuals::JUPITER_PERPETUALS_PROGRAM_ID, decoded("PERPHjGBqRHArX4DySjwM6UJHiR3sWAatqfdBS2qQJu"));
    assert_eq!(protocols::manifest::MANIFEST_PROGRAM_ID, decoded("MNFSTqtC93rEfYHB6hF82sKdZpUDFWkViLByLd1k1Ms"));
    assert_eq!(protocols::meteora_damm::METEORA_DAMM_PROGRAM_ID, decoded("Eo7WjKq67rjJQSZxS6z3YkapzY3eMj6Xy8X5EQVn5UaB"));
    assert_eq!(protocols::meteora_damm_v2::METEORA_DAMM_V2_PROGRAM_ID, decoded("cpamdpZCGKUy5JxQXB4dcpGPiikHawvSWAd6mEn1sGG"));
    assert_eq!(protocols::meteora_dlmm::METEORA_DLMM_PROGRAM_ID, decoded("LBUZKhRxPF3XUpBCjp4YzTKgLccjZhTSDM9YuVaPwxo"));
    assert_eq!(protocols::meteora_dynamic_bonding_curve::METEORA_DYNAMIC_BONDING_CURVE_PROGRAM_ID, decoded("dbcij3LWUppWqq96dh6gJWwBifmcGfLSB5D4DuSMaqN"));
    assert_eq!(protocols::nirvana_governance::NIRVANA_GOVERNANCE_PROGRAM_ID, decoded("NirvHuZvrm2zSxjkBvSbaF2tHfP5j7cvMj9QmdoHVwb"));
    assert_eq!(protocols::nirvana_governance::NIRV_MINT, decoded("3eamaYJ7yicyRd3mYz4YeNyNPGVo6zMmKUp5UP25AxRM"));
    assert_eq!(protocols::obric_v2::OBRIC_V2_PROGRAM_ID, decoded("obriQD1zbpyLz95G5n7nJe6a4DPjpFwa5XYPoNm113y"));
    assert_eq!(protocols::onre::ONRE_PROGRAM_ID, decoded("onreuGhHHgVzMWSkj2oQDLDtvvGvoepBPkqyaubFcwe"));
    assert_eq!(protocols::ore_lst::ORE_LST_PROGRAM_ID, decoded("LStwN2E5Uw6MCtuxHRLhy8RY9hxqW2XRpLzettb696y"));
    assert_eq!(protocols::oxedium::OXEDIUM_PROGRAM_ID, decoded("oV3SkLhiXSG946FaqDf1yNocFMhE1ZvomGsoWF8Mzap"));
    assert_eq!(protocols::perena::PERENA_PROGRAM_ID, decoded("NUMERUNsFCP3kuNmWZuXtm1AaQCPj9uw6Guv2Ekoi5P"));
    assert_eq!(protocols::phoenix_legacy::PHOENIX_LEGACY_PROGRAM_ID, decoded("PhoeNiXZ8ByJGLkxNfZRnkUfjvmuYqLR89jjFHGqdXY"));
    assert_eq!(protocols::pump_amm::PUMP_AMM_PROGRAM_ID, decoded("pAMMBay6oceH9fJKBRHGP5D4bD4sWpmSwMn52FMfXEA"));
    assert_eq!(protocols::raydium_amm_v4::RAYDIUM_AMM_V4_PROGRAM_ID, decoded("675kPX9MHTjS2zt1qfr1NYHuzeLXfQM9H24wFSUt1Mp8"));
    assert_eq!(protocols::raydium_clmm::RAYDIUM_CLMM_PROGRAM_ID, decoded("CAMMCzo5YL8w4VFF8KVHrK22GGUsp5VTaW7grrKgrWqK"));
    assert_eq!(protocols::rise::RISE_PROGRAM_ID, decoded("RiseZSHaLdj7pfn1tisUoSdG2i3QcVz9sQKuaRG9rar"));
    assert_eq!(protocols::sanctum_staking::SANCTUM_STAKING_PROGRAM_ID, decoded("bon4Kh3x1uQK16w9b9DKgz3Aw4AP1pZxBJk55Q6Sosb"));
    assert_eq!(protocols::saros_amm::SAROS_AMM_PROGRAM_ID, decoded("SSwapUtytfBdBn1b9NUGG6foMVPtcWgpRU32HToDUZr"));
    assert_eq!(protocols::saros_dlmm::SAROS_DLMM_PROGRAM_ID, decoded("1qbkdrr3z4ryLA7pZykqxvxWPoeifcVKo6ZG9CfkvVE"));
    assert_eq!(protocols::scale_amm::SCALE_AMM_PROGRAM_ID, decoded("SCALEwAvEK5gtkdHiFzXfPgtk2YwJxPDzaV3aDmR7tA"));
    assert_eq!(protocols::scorch::SCORCH_PROGRAM_ID, decoded("SCoRcH8c2dpjvcJD6FiPbCSQyQgu3PcUAWj2Xxx3mqn"));
    assert_eq!(protocols::solfi_v2::SOLFI_V2_PROGRAM_ID, decoded("SV2EYYJyRz2YhfXwXnhNAevDEui5Q6yrfyo13WtupPF"));
    assert_eq!(protocols::solv_finance::SOLV_FINANCE_PROGRAM_ID, decoded("soLv1S6GsAEVEnXmVY3oz6GtrNJteQ28iTyRQrHXvkz"));
    assert_eq!(protocols::stabble_stable::STABBLE_STABLE_PROGRAM_ID, decoded("swapNyd8XiQwJ6ianp9snpu4brUqFxadzvHebnAXjJZ"));
    assert_eq!(protocols::synatra::SYNATRA_PROGRAM_ID, decoded("synatfE5AvWtbDT9sSvDsF9gmeqR9qeq3FA84bhxWur"));
    assert_eq!(protocols::synatra::YSOL_MINT, decoded("yso11zxLbHA3wBJ9HAtVu6wnesqz9A2qxnhxanasZ4N"));
    assert_eq!(protocols::tessera_v::TESSERA_V_PROGRAM_ID, decoded("TessVdML9pBGgG9yGks7o4HewRaXVAMuoVj4x83GLQH"));
    assert_eq!(protocols::unitas_vault::UNITAS_VAULT_PROGRAM_ID, decoded("VALT7AM76ZWfRhjVeYQRrLvNRLvqBzNs8dTsAcLW3jj"));
    assert_eq!(protocols::voltr::VOLTR_PROGRAM_ID, decoded("vVoLTRjQmtFpiYoegx285Ze4gsLJ8ZxgFKVcuvmG1a8"));
    assert_eq!(protocols::xorca::XORCA_PROGRAM_ID, decoded("StaKE6XNKVVhG8Qu9hDJBqCW3eRe7MDGLz17nJZetLT"));
    assert_eq!(protocols::zerofi::ZEROFI_PROGRAM_ID, decoded("ZERor4xhbUycZ6gb9ntrhqscUcZmAbQDjEAtCf4hbZY"));
}
