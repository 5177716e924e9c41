use space_traders_cli::values::{FactionArg, WaypointTraitSymbolArg, WaypointTypeArg};

#[test]
fn faction_words_and_symbols_round_trip() {
    let all = [
        FactionArg::Cosmic,
        FactionArg::Void,
        FactionArg::Galactic,
        FactionArg::Quantum,
        FactionArg::Dominion,
        FactionArg::Astro,
        FactionArg::Corsairs,
        FactionArg::Obsidian,
        FactionArg::Aegis,
        FactionArg::United,
        FactionArg::Solitary,
        FactionArg::Cobalt,
        FactionArg::Omega,
        FactionArg::Echo,
        FactionArg::Lords,
        FactionArg::Cult,
        FactionArg::Ancients,
        FactionArg::Shadow,
        FactionArg::Ethereal,
    ];
    for v in all {
        assert_eq!(FactionArg::from_name(v.name()), Some(v));
        assert_eq!(FactionArg::from_symbol(v.symbol()), Some(v));
    }
    for (i, a) in all.iter().enumerate() {
        for b in all.iter().skip(i + 1) {
            assert_ne!(a.name(), b.name());
            assert_ne!(a.symbol(), b.symbol());
        }
    }
    assert_eq!(all.len(), 19);
}

#[test]
fn waypoint_type_words_and_symbols_round_trip() {
    let all = [
        WaypointTypeArg::Planet,
        WaypointTypeArg::GasGiant,
        WaypointTypeArg::Moon,
        WaypointTypeArg::OrbitalStation,
        WaypointTypeArg::JumpGate,
        WaypointTypeArg::AsteroidField,
        WaypointTypeArg::Asteroid,
        WaypointTypeArg::EngineeredAsteroid,
        WaypointTypeArg::AsteroidBase,
        WaypointTypeArg::Nebula,
        WaypointTypeArg::DebrisField,
        WaypointTypeArg::GravityWell,
        WaypointTypeArg::ArtificialGravityWell,
        WaypointTypeArg::FuelStation,
    ];
    for v in all {
        assert_eq!(WaypointTypeArg::from_name(v.name()), Some(v));
        assert_eq!(WaypointTypeArg::from_symbol(v.symbol()), Some(v));
    }
    for (i, a) in all.iter().enumerate() {
        for b in all.iter().skip(i + 1) {
            assert_ne!(a.name(), b.name());
            assert_ne!(a.symbol(), b.symbol());
        }
    }
    assert_eq!(all.len(), 14);
}

#[test]
fn waypoint_trait_words_and_symbols_round_trip() {
    let all = [
        WaypointTraitSymbolArg::Uncharted,
        WaypointTraitSymbolArg::UnderConstruction,
        WaypointTraitSymbolArg::Marketplace,
        WaypointTraitSymbolArg::Shipyard,
        WaypointTraitSymbolArg::Outpost,
        WaypointTraitSymbolArg::ScatteredSettlements,
        WaypointTraitSymbolArg::SprawlingCities,
        WaypointTraitSymbolArg::MegaStructures,
        WaypointTraitSymbolArg::PirateBase,
        WaypointTraitSymbolArg::Overcrowded,
        WaypointTraitSymbolArg::HighTech,
        WaypointTraitSymbolArg::Corrupt,
        WaypointTraitSymbolArg::Bureaucratic,
        WaypointTraitSymbolArg::TradingHub,
        WaypointTraitSymbolArg::Industrial,
        WaypointTraitSymbolArg::BlackMarket,
        WaypointTraitSymbolArg::ResearchFacility,
        WaypointTraitSymbolArg::MilitaryBase,
        WaypointTraitSymbolArg::SurveillanceOutpost,
        WaypointTraitSymbolArg::ExplorationOutpost,
        WaypointTraitSymbolArg::MineralDeposits,
        WaypointTraitSymbolArg::CommonMetalDeposits,
        WaypointTraitSymbolArg::PreciousMetalDeposits,
        WaypointTraitSymbolArg::RareMetalDeposits,
        WaypointTraitSymbolArg::MethanePools,
        WaypointTraitSymbolArg::IceCrystals,
        WaypointTraitSymbolArg::ExplosiveGases,
        WaypointTraitSymbolArg::StrongMagnetosphere,
        WaypointTraitSymbolArg::VibrantAuroras,
        WaypointTraitSymbolArg::SaltFlats,
        WaypointTraitSymbolArg::Canyons,
        WaypointTraitSymbolArg::PerpetualDaylight,
        WaypointTraitSymbolArg::PerpetualOvercast,
        WaypointTraitSymbolArg::DrySeabeds,
        WaypointTraitSymbolArg::MagmaSeas,
        WaypointTraitSymbolArg::Supervolcanoes,
        WaypointTraitSymbolArg::AshClouds,
        WaypointTraitSymbolArg::VastRuins,
        WaypointTraitSymbolArg::MutatedFlora,
        WaypointTraitSymbolArg::Terraformed,
        WaypointTraitSymbolArg::ExtremeTemperatures,
        WaypointTraitSymbolArg::ExtremePressure,
        WaypointTraitSymbolArg::DiverseLife,
        WaypointTraitSymbolArg::ScarceLife,
        WaypointTraitSymbolArg::Fossils,
        WaypointTraitSymbolArg::WeakGravity,
        WaypointTraitSymbolArg::StrongGravity,
        WaypointTraitSymbolArg::CrushingGravity,
        WaypointTraitSymbolArg::ToxicAtmosphere,
        WaypointTraitSymbolArg::CorrosiveAtmosphere,
        WaypointTraitSymbolArg::BreathableAtmosphere,
        WaypointTraitSymbolArg::ThinAtmosphere,
        WaypointTraitSymbolArg::Jovian,
        WaypointTraitSymbolArg::Rocky,
        WaypointTraitSymbolArg::Volcanic,
        WaypointTraitSymbolArg::Frozen,
        WaypointTraitSymbolArg::Swamp,
        WaypointTraitSymbolArg::Barren,
        WaypointTraitSymbolArg::Temperate,
        WaypointTraitSymbolArg::Jungle,
        WaypointTraitSymbolArg::Ocean,
        WaypointTraitSymbolArg::Radioactive,
        WaypointTraitSymbolArg::MicroGravityAnomalies,
        WaypointTraitSymbolArg::DebrisCluster,
        WaypointTraitSymbolArg::DeepCraters,
        WaypointTraitSymbolArg::ShallowCraters,
        WaypointTraitSymbolArg::UnstableComposition,
        WaypointTraitSymbolArg::HollowedInterior,
        WaypointTraitSymbolArg::Stripped,
    ];
    for v in all {
        assert_eq!(WaypointTraitSymbolArg::from_name(v.name()), Some(v));
        assert_eq!(WaypointTraitSymbolArg::from_symbol(v.symbol()), Some(v));
    }
    for (i, a) in all.iter().enumerate() {
        for b in all.iter().skip(i + 1) {
            assert_ne!(a.name(), b.name());
            assert_ne!(a.symbol(), b.symbol());
        }
    }
    assert_eq!(all.len(), 69);
}

#[test]
fn words_are_kebab_case_and_symbols_screaming_snake_case() {
    assert_eq!(FactionArg::Cosmic.name(), "cosmic");
    assert_eq!(FactionArg::Cosmic.symbol(), "COSMIC");
    assert_eq!(WaypointTypeArg::ArtificialGravityWell.name(), "artificial-gravity-well");
    assert_eq!(WaypointTypeArg::ArtificialGravityWell.symbol(), "ARTIFICIAL_GRAVITY_WELL");
    assert_eq!(WaypointTraitSymbolArg::MicroGravityAnomalies.name(), "micro-gravity-anomalies");
    assert_eq!(WaypointTraitSymbolArg::MicroGravityAnomalies.symbol(), "MICRO_GRAVITY_ANOMALIES");
}

#[test]
fn unknown_words_are_rejected() {
    assert_eq!(FactionArg::from_name("fooian"), None);
    assert_eq!(FactionArg::from_name("COSMIC"), None);
    assert_eq!(FactionArg::from_symbol("cosmic"), None);
    assert_eq!(WaypointTypeArg::from_name(""), None);
    assert_eq!(WaypointTraitSymbolArg::from_name("marketplace "), None);
}
