//! The printed identity of each Dragon Frontiers card module.
use tcg_expansions::df::cards::df_001_ampharos;
use tcg_expansions::df::cards::df_003_heracross;
use tcg_expansions::df::cards::df_006_nidoking;
use tcg_expansions::df::cards::df_011_togetic;
use tcg_expansions::df::cards::df_014_cloyster;
use tcg_expansions::df::cards::df_016_gligar;
use tcg_expansions::df::cards::df_017_jynx;
use tcg_expansions::df::cards::df_018_ledian;
use tcg_expansions::df::cards::df_020_mantine;
use tcg_expansions::df::cards::df_021_quagsire;
use tcg_expansions::df::cards::df_023_tropius;
use tcg_expansions::df::cards::df_024_vibrava;
use tcg_expansions::df::cards::df_029_electabuzz;
use tcg_expansions::df::cards::df_035_nidorino;
use tcg_expansions::df::cards::df_039_smeargle;
use tcg_expansions::df::cards::df_040_swellow;
use tcg_expansions::df::cards::df_048_elekid;
use tcg_expansions::df::cards::df_049_feebas;
use tcg_expansions::df::cards::df_060_ralts;
use tcg_expansions::df::cards::df_064_smoochum;
use tcg_expansions::df::cards::df_091_dragonite_ex;
use tcg_expansions::df::cards::df_092_flygon_ex;
use tcg_expansions::df::cards::df_093_gardevoir_ex;
use tcg_expansions::df::cards::df_094_kingdra_ex;
use tcg_expansions::df::cards::df_095_latias_ex;
use tcg_expansions::df::cards::df_096_latios_ex;
use tcg_expansions::df::cards::df_097_rayquaza_ex;
use tcg_expansions::df::cards::df_098_salamence_ex;
use tcg_expansions::df::cards::df_099_tyranitar_ex;
use tcg_expansions::df::cards::df_100_charizard_star;
use tcg_expansions::df::cards::df_101_mew_star;

#[test]
fn df_001_ampharos_test_card_identifiers() {
    assert_eq!(df_001_ampharos::SET, "DF");
    assert_eq!(df_001_ampharos::NUMBER, 1);
    assert_eq!(df_001_ampharos::NAME, "Ampharos δ");
}

#[test]
fn df_003_heracross_test_card_identifiers() {
    assert_eq!(df_003_heracross::SET, "DF");
    assert_eq!(df_003_heracross::NUMBER, 3);
    assert_eq!(df_003_heracross::NAME, "Heracross δ");
}

#[test]
fn df_006_nidoking_test_card_identifiers() {
    assert_eq!(df_006_nidoking::SET, "DF");
    assert_eq!(df_006_nidoking::NUMBER, 6);
    assert_eq!(df_006_nidoking::NAME, "Nidoking δ");
}

#[test]
fn df_011_togetic_test_card_identifiers() {
    assert_eq!(df_011_togetic::SET, "DF");
    assert_eq!(df_011_togetic::NUMBER, 11);
    assert_eq!(df_011_togetic::NAME, "Togetic δ");
}

#[test]
fn df_014_cloyster_test_card_identifiers() {
    assert_eq!(df_014_cloyster::SET, "DF");
    assert_eq!(df_014_cloyster::NUMBER, 14);
    assert_eq!(df_014_cloyster::NAME, "Cloyster δ");
}

#[test]
fn df_016_gligar_test_card_identifiers() {
    assert_eq!(df_016_gligar::SET, "DF");
    assert_eq!(df_016_gligar::NUMBER, 16);
    assert_eq!(df_016_gligar::NAME, "Gligar δ");
}

#[test]
fn df_017_jynx_test_card_identifiers() {
    assert_eq!(df_017_jynx::SET, "DF");
    assert_eq!(df_017_jynx::NUMBER, 17);
    assert_eq!(df_017_jynx::NAME, "Jynx δ");
}

#[test]
fn df_018_ledian_test_card_identifiers() {
    assert_eq!(df_018_ledian::SET, "DF");
    assert_eq!(df_018_ledian::NUMBER, 18);
    assert_eq!(df_018_ledian::NAME, "Ledian δ");
}

#[test]
fn df_020_mantine_test_card_identifiers() {
    assert_eq!(df_020_mantine::SET, "DF");
    assert_eq!(df_020_mantine::NUMBER, 20);
    assert_eq!(df_020_mantine::NAME, "Mantine δ");
}

#[test]
fn df_021_quagsire_test_card_identifiers() {
    assert_eq!(df_021_quagsire::SET, "DF");
    assert_eq!(df_021_quagsire::NUMBER, 21);
    assert_eq!(df_021_quagsire::NAME, "Quagsire δ");
}

#[test]
fn df_023_tropius_test_card_identifiers() {
    assert_eq!(df_023_tropius::SET, "DF");
    assert_eq!(df_023_tropius::NUMBER, 23);
    assert_eq!(df_023_tropius::NAME, "Tropius δ");
}

#[test]
fn df_024_vibrava_test_card_identifiers() {
    assert_eq!(df_024_vibrava::SET, "DF");
    assert_eq!(df_024_vibrava::NUMBER, 24);
    assert_eq!(df_024_vibrava::NAME, "Vibrava δ");
}

#[test]
fn df_029_electabuzz_test_card_identifiers() {
    assert_eq!(df_029_electabuzz::SET, "DF");
    assert_eq!(df_029_electabuzz::NUMBER, 29);
    assert_eq!(df_029_electabuzz::NAME, "Electabuzz δ");
}

#[test]
fn df_035_nidorino_test_card_identifiers() {
    assert_eq!(df_035_nidorino::SET, "DF");
    assert_eq!(df_035_nidorino::NUMBER, 35);
    assert_eq!(df_035_nidorino::NAME, "Nidorino δ");
}

#[test]
fn df_039_smeargle_test_card_identifiers() {
    assert_eq!(df_039_smeargle::SET, "DF");
    assert_eq!(df_039_smeargle::NUMBER, 39);
    assert_eq!(df_039_smeargle::NAME, "Smeargle δ");
}

#[test]
fn df_040_swellow_test_card_identifiers() {
    assert_eq!(df_040_swellow::SET, "DF");
    assert_eq!(df_040_swellow::NUMBER, 40);
    assert_eq!(df_040_swellow::NAME, "Swellow δ");
}

#[test]
fn df_048_elekid_test_card_identifiers() {
    assert_eq!(df_048_elekid::SET, "DF");
    assert_eq!(df_048_elekid::NUMBER, 48);
    assert_eq!(df_048_elekid::NAME, "Elekid δ");
}

#[test]
fn df_049_feebas_test_card_identifiers() {
    assert_eq!(df_049_feebas::SET, "DF");
    assert_eq!(df_049_feebas::NUMBER, 49);
    assert_eq!(df_049_feebas::NAME, "Feebas δ");
}

#[test]
fn df_060_ralts_test_card_identifiers() {
    assert_eq!(df_060_ralts::SET, "DF");
    assert_eq!(df_060_ralts::NUMBER, 60);
    assert_eq!(df_060_ralts::NAME, "Ralts");
}

#[test]
fn df_064_smoochum_test_card_identifiers() {
    assert_eq!(df_064_smoochum::SET, "DF");
    assert_eq!(df_064_smoochum::NUMBER, 64);
    assert_eq!(df_064_smoochum::NAME, "Smoochum δ");
}

#[test]
fn df_091_dragonite_ex_test_card_identifiers() {
    assert_eq!(df_091_dragonite_ex::SET, "DF");
    assert_eq!(df_091_dragonite_ex::NUMBER, 91);
    assert_eq!(df_091_dragonite_ex::NAME, "Dragonite ex δ");
}

#[test]
fn df_092_flygon_ex_test_card_identifiers() {
    assert_eq!(df_092_flygon_ex::SET, "DF");
    assert_eq!(df_092_flygon_ex::NUMBER, 92);
    assert_eq!(df_092_flygon_ex::NAME, "Flygon ex δ");
}

#[test]
fn df_093_gardevoir_ex_test_card_identifiers() {
    assert_eq!(df_093_gardevoir_ex::SET, "DF");
    assert_eq!(df_093_gardevoir_ex::NUMBER, 93);
    assert_eq!(df_093_gardevoir_ex::NAME, "Gardevoir ex δ");
}

#[test]
fn df_094_kingdra_ex_test_card_identifiers() {
    assert_eq!(df_094_kingdra_ex::SET, "DF");
    assert_eq!(df_094_kingdra_ex::NUMBER, 94);
    assert_eq!(df_094_kingdra_ex::NAME, "Kingdra ex δ");
}

#[test]
fn df_095_latias_ex_test_card_identifiers() {
    assert_eq!(df_095_latias_ex::SET, "DF");
    assert_eq!(df_095_latias_ex::NUMBER, 95);
    assert_eq!(df_095_latias_ex::NAME, "Latias ex δ");
}

#[test]
fn df_096_latios_ex_test_card_identifiers() {
    assert_eq!(df_096_latios_ex::SET, "DF");
    assert_eq!(df_096_latios_ex::NUMBER, 96);
    assert_eq!(df_096_latios_ex::NAME, "Latios ex δ");
}

#[test]
fn df_097_rayquaza_ex_test_card_identifiers() {
    assert_eq!(df_097_rayquaza_ex::SET, "DF");
    assert_eq!(df_097_rayquaza_ex::NUMBER, 97);
    assert_eq!(df_097_rayquaza_ex::NAME, "Rayquaza ex δ");
}

#[test]
fn df_098_salamence_ex_test_card_identifiers() {
    assert_eq!(df_098_salamence_ex::SET, "DF");
    assert_eq!(df_098_salamence_ex::NUMBER, 98);
    assert_eq!(df_098_salamence_ex::NAME, "Salamence ex δ");
}

#[test]
fn df_099_tyranitar_ex_test_card_identifiers() {
    assert_eq!(df_099_tyranitar_ex::SET, "DF");
    assert_eq!(df_099_tyranitar_ex::NUMBER, 99);
    assert_eq!(df_099_tyranitar_ex::NAME, "Tyranitar ex δ");
}

#[test]
fn df_100_charizard_star_test_card_identifiers() {
    assert_eq!(df_100_charizard_star::SET, "DF");
    assert_eq!(df_100_charizard_star::NUMBER, 100);
    assert_eq!(df_100_charizard_star::NAME, "Charizard ★ δ");
}

#[test]
fn df_101_mew_star_test_card_identifiers() {
    assert_eq!(df_101_mew_star::SET, "DF");
    assert_eq!(df_101_mew_star::NUMBER, 101);
    assert_eq!(df_101_mew_star::NAME, "Mew ★ δ");
}
