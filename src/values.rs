//! The closed value sets that command arguments draw from.
//!
//! Each value has one word on the command line and one symbol in the remote
//! service's records.

use crate::text::str_eq;
use vstd::prelude::*;

verus! {

/// A faction an agent can be registered with.
#[derive(Clone, Copy, Debug, PartialEq, Eq, Structural)]
pub enum FactionArg {
    Cosmic,
    Void,
    Galactic,
    Quantum,
    Dominion,
    Astro,
    Corsairs,
    Obsidian,
    Aegis,
    United,
    Solitary,
    Cobalt,
    Omega,
    Echo,
    Lords,
    Cult,
    Ancients,
    Shadow,
    Ethereal,
}

impl FactionArg {
    /// The word that names this faction on a command line.
    pub open spec fn spec_name(self) -> Seq<char> {
        match self {
            FactionArg::Cosmic => "cosmic"@,
            FactionArg::Void => "void"@,
            FactionArg::Galactic => "galactic"@,
            FactionArg::Quantum => "quantum"@,
            FactionArg::Dominion => "dominion"@,
            FactionArg::Astro => "astro"@,
            FactionArg::Corsairs => "corsairs"@,
            FactionArg::Obsidian => "obsidian"@,
            FactionArg::Aegis => "aegis"@,
            FactionArg::United => "united"@,
            FactionArg::Solitary => "solitary"@,
            FactionArg::Cobalt => "cobalt"@,
            FactionArg::Omega => "omega"@,
            FactionArg::Echo => "echo"@,
            FactionArg::Lords => "lords"@,
            FactionArg::Cult => "cult"@,
            FactionArg::Ancients => "ancients"@,
            FactionArg::Shadow => "shadow"@,
            FactionArg::Ethereal => "ethereal"@,
        }
    }

    /// The symbol the remote service uses for this faction.
    pub open spec fn spec_symbol(self) -> Seq<char> {
        match self {
            FactionArg::Cosmic => "COSMIC"@,
            FactionArg::Void => "VOID"@,
            FactionArg::Galactic => "GALACTIC"@,
            FactionArg::Quantum => "QUANTUM"@,
            FactionArg::Dominion => "DOMINION"@,
            FactionArg::Astro => "ASTRO"@,
            FactionArg::Corsairs => "CORSAIRS"@,
            FactionArg::Obsidian => "OBSIDIAN"@,
            FactionArg::Aegis => "AEGIS"@,
            FactionArg::United => "UNITED"@,
            FactionArg::Solitary => "SOLITARY"@,
            FactionArg::Cobalt => "COBALT"@,
            FactionArg::Omega => "OMEGA"@,
            FactionArg::Echo => "ECHO"@,
            FactionArg::Lords => "LORDS"@,
            FactionArg::Cult => "CULT"@,
            FactionArg::Ancients => "ANCIENTS"@,
            FactionArg::Shadow => "SHADOW"@,
            FactionArg::Ethereal => "ETHEREAL"@,
        }
    }

    /// The command-line word of this value.
    pub fn name(&self) -> (r: &'static str)
        ensures
            r@ == self.spec_name(),
    {
        match self {
            FactionArg::Cosmic => "cosmic",
            FactionArg::Void => "void",
            FactionArg::Galactic => "galactic",
            FactionArg::Quantum => "quantum",
            FactionArg::Dominion => "dominion",
            FactionArg::Astro => "astro",
            FactionArg::Corsairs => "corsairs",
            FactionArg::Obsidian => "obsidian",
            FactionArg::Aegis => "aegis",
            FactionArg::United => "united",
            FactionArg::Solitary => "solitary",
            FactionArg::Cobalt => "cobalt",
            FactionArg::Omega => "omega",
            FactionArg::Echo => "echo",
            FactionArg::Lords => "lords",
            FactionArg::Cult => "cult",
            FactionArg::Ancients => "ancients",
            FactionArg::Shadow => "shadow",
            FactionArg::Ethereal => "ethereal",
        }
    }

    /// The remote service's symbol for this value.
    pub fn symbol(&self) -> (r: &'static str)
        ensures
            r@ == self.spec_symbol(),
    {
        match self {
            FactionArg::Cosmic => "COSMIC",
            FactionArg::Void => "VOID",
            FactionArg::Galactic => "GALACTIC",
            FactionArg::Quantum => "QUANTUM",
            FactionArg::Dominion => "DOMINION",
            FactionArg::Astro => "ASTRO",
            FactionArg::Corsairs => "CORSAIRS",
            FactionArg::Obsidian => "OBSIDIAN",
            FactionArg::Aegis => "AEGIS",
            FactionArg::United => "UNITED",
            FactionArg::Solitary => "SOLITARY",
            FactionArg::Cobalt => "COBALT",
            FactionArg::Omega => "OMEGA",
            FactionArg::Echo => "ECHO",
            FactionArg::Lords => "LORDS",
            FactionArg::Cult => "CULT",
            FactionArg::Ancients => "ANCIENTS",
            FactionArg::Shadow => "SHADOW",
            FactionArg::Ethereal => "ETHEREAL",
        }
    }

    /// Reads a faction from its command-line word.
    pub fn from_name(s: &str) -> (r: Option<FactionArg>)
        ensures
            r matches Some(v) ==> v.spec_name() == s@,
            r is None ==> forall|v: FactionArg| v.spec_name() != s@,
    {
        if str_eq(s, "cosmic") {
            return Some(FactionArg::Cosmic);
        }
        if str_eq(s, "void") {
            return Some(FactionArg::Void);
        }
        if str_eq(s, "galactic") {
            return Some(FactionArg::Galactic);
        }
        if str_eq(s, "quantum") {
            return Some(FactionArg::Quantum);
        }
        if str_eq(s, "dominion") {
            return Some(FactionArg::Dominion);
        }
        if str_eq(s, "astro") {
            return Some(FactionArg::Astro);
        }
        if str_eq(s, "corsairs") {
            return Some(FactionArg::Corsairs);
        }
        if str_eq(s, "obsidian") {
            return Some(FactionArg::Obsidian);
        }
        if str_eq(s, "aegis") {
            return Some(FactionArg::Aegis);
        }
        if str_eq(s, "united") {
            return Some(FactionArg::United);
        }
        if str_eq(s, "solitary") {
            return Some(FactionArg::Solitary);
        }
        if str_eq(s, "cobalt") {
            return Some(FactionArg::Cobalt);
        }
        if str_eq(s, "omega") {
            return Some(FactionArg::Omega);
        }
        if str_eq(s, "echo") {
            return Some(FactionArg::Echo);
        }
        if str_eq(s, "lords") {
            return Some(FactionArg::Lords);
        }
        if str_eq(s, "cult") {
            return Some(FactionArg::Cult);
        }
        if str_eq(s, "ancients") {
            return Some(FactionArg::Ancients);
        }
        if str_eq(s, "shadow") {
            return Some(FactionArg::Shadow);
        }
        if str_eq(s, "ethereal") {
            return Some(FactionArg::Ethereal);
        }
        None
    }

    /// Reads a faction from the remote service's symbol.
    pub fn from_symbol(s: &str) -> (r: Option<FactionArg>)
        ensures
            r matches Some(v) ==> v.spec_symbol() == s@,
            r is None ==> forall|v: FactionArg| v.spec_symbol() != s@,
    {
        if str_eq(s, "COSMIC") {
            return Some(FactionArg::Cosmic);
        }
        if str_eq(s, "VOID") {
            return Some(FactionArg::Void);
        }
        if str_eq(s, "GALACTIC") {
            return Some(FactionArg::Galactic);
        }
        if str_eq(s, "QUANTUM") {
            return Some(FactionArg::Quantum);
        }
        if str_eq(s, "DOMINION") {
            return Some(FactionArg::Dominion);
        }
        if str_eq(s, "ASTRO") {
            return Some(FactionArg::Astro);
        }
        if str_eq(s, "CORSAIRS") {
            return Some(FactionArg::Corsairs);
        }
        if str_eq(s, "OBSIDIAN") {
            return Some(FactionArg::Obsidian);
        }
        if str_eq(s, "AEGIS") {
            return Some(FactionArg::Aegis);
        }
        if str_eq(s, "UNITED") {
            return Some(FactionArg::United);
        }
        if str_eq(s, "SOLITARY") {
            return Some(FactionArg::Solitary);
        }
        if str_eq(s, "COBALT") {
            return Some(FactionArg::Cobalt);
        }
        if str_eq(s, "OMEGA") {
            return Some(FactionArg::Omega);
        }
        if str_eq(s, "ECHO") {
            return Some(FactionArg::Echo);
        }
        if str_eq(s, "LORDS") {
            return Some(FactionArg::Lords);
        }
        if str_eq(s, "CULT") {
            return Some(FactionArg::Cult);
        }
        if str_eq(s, "ANCIENTS") {
            return Some(FactionArg::Ancients);
        }
        if str_eq(s, "SHADOW") {
            return Some(FactionArg::Shadow);
        }
        if str_eq(s, "ETHEREAL") {
            return Some(FactionArg::Ethereal);
        }
        None
    }
}

/// The kind of a waypoint, used to filter waypoint listings.
#[derive(Clone, Copy, Debug, PartialEq, Eq, Structural)]
pub enum WaypointTypeArg {
    Planet,
    GasGiant,
    Moon,
    OrbitalStation,
    JumpGate,
    AsteroidField,
    Asteroid,
    EngineeredAsteroid,
    AsteroidBase,
    Nebula,
    DebrisField,
    GravityWell,
    ArtificialGravityWell,
    FuelStation,
}

impl WaypointTypeArg {
    /// The word that names this waypoint type on a command line.
    pub open spec fn spec_name(self) -> Seq<char> {
        match self {
            WaypointTypeArg::Planet => "planet"@,
            WaypointTypeArg::GasGiant => "gas-giant"@,
            WaypointTypeArg::Moon => "moon"@,
            WaypointTypeArg::OrbitalStation => "orbital-station"@,
            WaypointTypeArg::JumpGate => "jump-gate"@,
            WaypointTypeArg::AsteroidField => "asteroid-field"@,
            WaypointTypeArg::Asteroid => "asteroid"@,
            WaypointTypeArg::EngineeredAsteroid => "engineered-asteroid"@,
            WaypointTypeArg::AsteroidBase => "asteroid-base"@,
            WaypointTypeArg::Nebula => "nebula"@,
            WaypointTypeArg::DebrisField => "debris-field"@,
            WaypointTypeArg::GravityWell => "gravity-well"@,
            WaypointTypeArg::ArtificialGravityWell => "artificial-gravity-well"@,
            WaypointTypeArg::FuelStation => "fuel-station"@,
        }
    }

    /// The symbol the remote service uses for this waypoint type.
    pub open spec fn spec_symbol(self) -> Seq<char> {
        match self {
            WaypointTypeArg::Planet => "PLANET"@,
            WaypointTypeArg::GasGiant => "GAS_GIANT"@,
            WaypointTypeArg::Moon => "MOON"@,
            WaypointTypeArg::OrbitalStation => "ORBITAL_STATION"@,
            WaypointTypeArg::JumpGate => "JUMP_GATE"@,
            WaypointTypeArg::AsteroidField => "ASTEROID_FIELD"@,
            WaypointTypeArg::Asteroid => "ASTEROID"@,
            WaypointTypeArg::EngineeredAsteroid => "ENGINEERED_ASTEROID"@,
            WaypointTypeArg::AsteroidBase => "ASTEROID_BASE"@,
            WaypointTypeArg::Nebula => "NEBULA"@,
            WaypointTypeArg::DebrisField => "DEBRIS_FIELD"@,
            WaypointTypeArg::GravityWell => "GRAVITY_WELL"@,
            WaypointTypeArg::ArtificialGravityWell => "ARTIFICIAL_GRAVITY_WELL"@,
            WaypointTypeArg::FuelStation => "FUEL_STATION"@,
        }
    }

    /// The command-line word of this value.
    pub fn name(&self) -> (r: &'static str)
        ensures
            r@ == self.spec_name(),
    {
        match self {
            WaypointTypeArg::Planet => "planet",
            WaypointTypeArg::GasGiant => "gas-giant",
            WaypointTypeArg::Moon => "moon",
            WaypointTypeArg::OrbitalStation => "orbital-station",
            WaypointTypeArg::JumpGate => "jump-gate",
            WaypointTypeArg::AsteroidField => "asteroid-field",
            WaypointTypeArg::Asteroid => "asteroid",
            WaypointTypeArg::EngineeredAsteroid => "engineered-asteroid",
            WaypointTypeArg::AsteroidBase => "asteroid-base",
            WaypointTypeArg::Nebula => "nebula",
            WaypointTypeArg::DebrisField => "debris-field",
            WaypointTypeArg::GravityWell => "gravity-well",
            WaypointTypeArg::ArtificialGravityWell => "artificial-gravity-well",
            WaypointTypeArg::FuelStation => "fuel-station",
        }
    }

    /// The remote service's symbol for this value.
    pub fn symbol(&self) -> (r: &'static str)
        ensures
            r@ == self.spec_symbol(),
    {
        match self {
            WaypointTypeArg::Planet => "PLANET",
            WaypointTypeArg::GasGiant => "GAS_GIANT",
            WaypointTypeArg::Moon => "MOON",
            WaypointTypeArg::OrbitalStation => "ORBITAL_STATION",
            WaypointTypeArg::JumpGate => "JUMP_GATE",
            WaypointTypeArg::AsteroidField => "ASTEROID_FIELD",
            WaypointTypeArg::Asteroid => "ASTEROID",
            WaypointTypeArg::EngineeredAsteroid => "ENGINEERED_ASTEROID",
            WaypointTypeArg::AsteroidBase => "ASTEROID_BASE",
            WaypointTypeArg::Nebula => "NEBULA",
            WaypointTypeArg::DebrisField => "DEBRIS_FIELD",
            WaypointTypeArg::GravityWell => "GRAVITY_WELL",
            WaypointTypeArg::ArtificialGravityWell => "ARTIFICIAL_GRAVITY_WELL",
            WaypointTypeArg::FuelStation => "FUEL_STATION",
        }
    }

    /// Reads a waypoint type from its command-line word.
    pub fn from_name(s: &str) -> (r: Option<WaypointTypeArg>)
        ensures
            r matches Some(v) ==> v.spec_name() == s@,
            r is None ==> forall|v: WaypointTypeArg| v.spec_name() != s@,
    {
        if str_eq(s, "planet") {
            return Some(WaypointTypeArg::Planet);
        }
        if str_eq(s, "gas-giant") {
            return Some(WaypointTypeArg::GasGiant);
        }
        if str_eq(s, "moon") {
            return Some(WaypointTypeArg::Moon);
        }
        if str_eq(s, "orbital-station") {
            return Some(WaypointTypeArg::OrbitalStation);
        }
        if str_eq(s, "jump-gate") {
            return Some(WaypointTypeArg::JumpGate);
        }
        if str_eq(s, "asteroid-field") {
            return Some(WaypointTypeArg::AsteroidField);
        }
        if str_eq(s, "asteroid") {
            return Some(WaypointTypeArg::Asteroid);
        }
        if str_eq(s, "engineered-asteroid") {
            return Some(WaypointTypeArg::EngineeredAsteroid);
        }
        if str_eq(s, "asteroid-base") {
            return Some(WaypointTypeArg::AsteroidBase);
        }
        if str_eq(s, "nebula") {
            return Some(WaypointTypeArg::Nebula);
        }
        if str_eq(s, "debris-field") {
            return Some(WaypointTypeArg::DebrisField);
        }
        if str_eq(s, "gravity-well") {
            return Some(WaypointTypeArg::GravityWell);
        }
        if str_eq(s, "artificial-gravity-well") {
            return Some(WaypointTypeArg::ArtificialGravityWell);
        }
        if str_eq(s, "fuel-station") {
            return Some(WaypointTypeArg::FuelStation);
        }
        None
    }

    /// Reads a waypoint type from the remote service's symbol.
    pub fn from_symbol(s: &str) -> (r: Option<WaypointTypeArg>)
        ensures
            r matches Some(v) ==> v.spec_symbol() == s@,
            r is None ==> forall|v: WaypointTypeArg| v.spec_symbol() != s@,
    {
        if str_eq(s, "PLANET") {
            return Some(WaypointTypeArg::Planet);
        }
        if str_eq(s, "GAS_GIANT") {
            return Some(WaypointTypeArg::GasGiant);
        }
        if str_eq(s, "MOON") {
            return Some(WaypointTypeArg::Moon);
        }
        if str_eq(s, "ORBITAL_STATION") {
            return Some(WaypointTypeArg::OrbitalStation);
        }
        if str_eq(s, "JUMP_GATE") {
            return Some(WaypointTypeArg::JumpGate);
        }
        if str_eq(s, "ASTEROID_FIELD") {
            return Some(WaypointTypeArg::AsteroidField);
        }
        if str_eq(s, "ASTEROID") {
            return Some(WaypointTypeArg::Asteroid);
        }
        if str_eq(s, "ENGINEERED_ASTEROID") {
            return Some(WaypointTypeArg::EngineeredAsteroid);
        }
        if str_eq(s, "ASTEROID_BASE") {
            return Some(WaypointTypeArg::AsteroidBase);
        }
        if str_eq(s, "NEBULA") {
            return Some(WaypointTypeArg::Nebula);
        }
        if str_eq(s, "DEBRIS_FIELD") {
            return Some(WaypointTypeArg::DebrisField);
        }
        if str_eq(s, "GRAVITY_WELL") {
            return Some(WaypointTypeArg::GravityWell);
        }
        if str_eq(s, "ARTIFICIAL_GRAVITY_WELL") {
            return Some(WaypointTypeArg::ArtificialGravityWell);
        }
        if str_eq(s, "FUEL_STATION") {
            return Some(WaypointTypeArg::FuelStation);
        }
        None
    }
}

/// A trait a waypoint can have, used to filter waypoint listings.
#[derive(Clone, Copy, Debug, PartialEq, Eq, Structural)]
pub enum WaypointTraitSymbolArg {
    Uncharted,
    UnderConstruction,
    Marketplace,
    Shipyard,
    Outpost,
    ScatteredSettlements,
    SprawlingCities,
    MegaStructures,
    PirateBase,
    Overcrowded,
    HighTech,
    Corrupt,
    Bureaucratic,
    TradingHub,
    Industrial,
    BlackMarket,
    ResearchFacility,
    MilitaryBase,
    SurveillanceOutpost,
    ExplorationOutpost,
    MineralDeposits,
    CommonMetalDeposits,
    PreciousMetalDeposits,
    RareMetalDeposits,
    MethanePools,
    IceCrystals,
    ExplosiveGases,
    StrongMagnetosphere,
    VibrantAuroras,
    SaltFlats,
    Canyons,
    PerpetualDaylight,
    PerpetualOvercast,
    DrySeabeds,
    MagmaSeas,
    Supervolcanoes,
    AshClouds,
    VastRuins,
    MutatedFlora,
    Terraformed,
    ExtremeTemperatures,
    ExtremePressure,
    DiverseLife,
    ScarceLife,
    Fossils,
    WeakGravity,
    StrongGravity,
    CrushingGravity,
    ToxicAtmosphere,
    CorrosiveAtmosphere,
    BreathableAtmosphere,
    ThinAtmosphere,
    Jovian,
    Rocky,
    Volcanic,
    Frozen,
    Swamp,
    Barren,
    Temperate,
    Jungle,
    Ocean,
    Radioactive,
    MicroGravityAnomalies,
    DebrisCluster,
    DeepCraters,
    ShallowCraters,
    UnstableComposition,
    HollowedInterior,
    Stripped,
}

impl WaypointTraitSymbolArg {
    /// The word that names this waypoint trait on a command line.
    pub open spec fn spec_name(self) -> Seq<char> {
        match self {
            WaypointTraitSymbolArg::Uncharted => "uncharted"@,
            WaypointTraitSymbolArg::UnderConstruction => "under-construction"@,
            WaypointTraitSymbolArg::Marketplace => "marketplace"@,
            WaypointTraitSymbolArg::Shipyard => "shipyard"@,
            WaypointTraitSymbolArg::Outpost => "outpost"@,
            WaypointTraitSymbolArg::ScatteredSettlements => "scattered-settlements"@,
            WaypointTraitSymbolArg::SprawlingCities => "sprawling-cities"@,
            WaypointTraitSymbolArg::MegaStructures => "mega-structures"@,
            WaypointTraitSymbolArg::PirateBase => "pirate-base"@,
            WaypointTraitSymbolArg::Overcrowded => "overcrowded"@,
            WaypointTraitSymbolArg::HighTech => "high-tech"@,
            WaypointTraitSymbolArg::Corrupt => "corrupt"@,
            WaypointTraitSymbolArg::Bureaucratic => "bureaucratic"@,
            WaypointTraitSymbolArg::TradingHub => "trading-hub"@,
            WaypointTraitSymbolArg::Industrial => "industrial"@,
            WaypointTraitSymbolArg::BlackMarket => "black-market"@,
            WaypointTraitSymbolArg::ResearchFacility => "research-facility"@,
            WaypointTraitSymbolArg::MilitaryBase => "military-base"@,
            WaypointTraitSymbolArg::SurveillanceOutpost => "surveillance-outpost"@,
            WaypointTraitSymbolArg::ExplorationOutpost => "exploration-outpost"@,
            WaypointTraitSymbolArg::MineralDeposits => "mineral-deposits"@,
            WaypointTraitSymbolArg::CommonMetalDeposits => "common-metal-deposits"@,
            WaypointTraitSymbolArg::PreciousMetalDeposits => "precious-metal-deposits"@,
            WaypointTraitSymbolArg::RareMetalDeposits => "rare-metal-deposits"@,
            WaypointTraitSymbolArg::MethanePools => "methane-pools"@,
            WaypointTraitSymbolArg::IceCrystals => "ice-crystals"@,
            WaypointTraitSymbolArg::ExplosiveGases => "explosive-gases"@,
            WaypointTraitSymbolArg::StrongMagnetosphere => "strong-magnetosphere"@,
            WaypointTraitSymbolArg::VibrantAuroras => "vibrant-auroras"@,
            WaypointTraitSymbolArg::SaltFlats => "salt-flats"@,
            WaypointTraitSymbolArg::Canyons => "canyons"@,
            WaypointTraitSymbolArg::PerpetualDaylight => "perpetual-daylight"@,
            WaypointTraitSymbolArg::PerpetualOvercast => "perpetual-overcast"@,
            WaypointTraitSymbolArg::DrySeabeds => "dry-seabeds"@,
            WaypointTraitSymbolArg::MagmaSeas => "magma-seas"@,
            WaypointTraitSymbolArg::Supervolcanoes => "supervolcanoes"@,
            WaypointTraitSymbolArg::AshClouds => "ash-clouds"@,
            WaypointTraitSymbolArg::VastRuins => "vast-ruins"@,
            WaypointTraitSymbolArg::MutatedFlora => "mutated-flora"@,
            WaypointTraitSymbolArg::Terraformed => "terraformed"@,
            WaypointTraitSymbolArg::ExtremeTemperatures => "extreme-temperatures"@,
            WaypointTraitSymbolArg::ExtremePressure => "extreme-pressure"@,
            WaypointTraitSymbolArg::DiverseLife => "diverse-life"@,
            WaypointTraitSymbolArg::ScarceLife => "scarce-life"@,
            WaypointTraitSymbolArg::Fossils => "fossils"@,
            WaypointTraitSymbolArg::WeakGravity => "weak-gravity"@,
            WaypointTraitSymbolArg::StrongGravity => "strong-gravity"@,
            WaypointTraitSymbolArg::CrushingGravity => "crushing-gravity"@,
            WaypointTraitSymbolArg::ToxicAtmosphere => "toxic-atmosphere"@,
            WaypointTraitSymbolArg::CorrosiveAtmosphere => "corrosive-atmosphere"@,
            WaypointTraitSymbolArg::BreathableAtmosphere => "breathable-atmosphere"@,
            WaypointTraitSymbolArg::ThinAtmosphere => "thin-atmosphere"@,
            WaypointTraitSymbolArg::Jovian => "jovian"@,
            WaypointTraitSymbolArg::Rocky => "rocky"@,
            WaypointTraitSymbolArg::Volcanic => "volcanic"@,
            WaypointTraitSymbolArg::Frozen => "frozen"@,
            WaypointTraitSymbolArg::Swamp => "swamp"@,
            WaypointTraitSymbolArg::Barren => "barren"@,
            WaypointTraitSymbolArg::Temperate => "temperate"@,
            WaypointTraitSymbolArg::Jungle => "jungle"@,
            WaypointTraitSymbolArg::Ocean => "ocean"@,
            WaypointTraitSymbolArg::Radioactive => "radioactive"@,
            WaypointTraitSymbolArg::MicroGravityAnomalies => "micro-gravity-anomalies"@,
            WaypointTraitSymbolArg::DebrisCluster => "debris-cluster"@,
            WaypointTraitSymbolArg::DeepCraters => "deep-craters"@,
            WaypointTraitSymbolArg::ShallowCraters => "shallow-craters"@,
            WaypointTraitSymbolArg::UnstableComposition => "unstable-composition"@,
            WaypointTraitSymbolArg::HollowedInterior => "hollowed-interior"@,
            WaypointTraitSymbolArg::Stripped => "stripped"@,
        }
    }

    /// The symbol the remote service uses for this waypoint trait.
    pub open spec fn spec_symbol(self) -> Seq<char> {
        match self {
            WaypointTraitSymbolArg::Uncharted => "UNCHARTED"@,
            WaypointTraitSymbolArg::UnderConstruction => "UNDER_CONSTRUCTION"@,
            WaypointTraitSymbolArg::Marketplace => "MARKETPLACE"@,
            WaypointTraitSymbolArg::Shipyard => "SHIPYARD"@,
            WaypointTraitSymbolArg::Outpost => "OUTPOST"@,
            WaypointTraitSymbolArg::ScatteredSettlements => "SCATTERED_SETTLEMENTS"@,
            WaypointTraitSymbolArg::SprawlingCities => "SPRAWLING_CITIES"@,
            WaypointTraitSymbolArg::MegaStructures => "MEGA_STRUCTURES"@,
            WaypointTraitSymbolArg::PirateBase => "PIRATE_BASE"@,
            WaypointTraitSymbolArg::Overcrowded => "OVERCROWDED"@,
            WaypointTraitSymbolArg::HighTech => "HIGH_TECH"@,
            WaypointTraitSymbolArg::Corrupt => "CORRUPT"@,
            WaypointTraitSymbolArg::Bureaucratic => "BUREAUCRATIC"@,
            WaypointTraitSymbolArg::TradingHub => "TRADING_HUB"@,
            WaypointTraitSymbolArg::Industrial => "INDUSTRIAL"@,
            WaypointTraitSymbolArg::BlackMarket => "BLACK_MARKET"@,
            WaypointTraitSymbolArg::ResearchFacility => "RESEARCH_FACILITY"@,
            WaypointTraitSymbolArg::MilitaryBase => "MILITARY_BASE"@,
            WaypointTraitSymbolArg::SurveillanceOutpost => "SURVEILLANCE_OUTPOST"@,
            WaypointTraitSymbolArg::ExplorationOutpost => "EXPLORATION_OUTPOST"@,
            WaypointTraitSymbolArg::MineralDeposits => "MINERAL_DEPOSITS"@,
            WaypointTraitSymbolArg::CommonMetalDeposits => "COMMON_METAL_DEPOSITS"@,
            WaypointTraitSymbolArg::PreciousMetalDeposits => "PRECIOUS_METAL_DEPOSITS"@,
            WaypointTraitSymbolArg::RareMetalDeposits => "RARE_METAL_DEPOSITS"@,
            WaypointTraitSymbolArg::MethanePools => "METHANE_POOLS"@,
            WaypointTraitSymbolArg::IceCrystals => "ICE_CRYSTALS"@,
            WaypointTraitSymbolArg::ExplosiveGases => "EXPLOSIVE_GASES"@,
            WaypointTraitSymbolArg::StrongMagnetosphere => "STRONG_MAGNETOSPHERE"@,
            WaypointTraitSymbolArg::VibrantAuroras => "VIBRANT_AURORAS"@,
            WaypointTraitSymbolArg::SaltFlats => "SALT_FLATS"@,
            WaypointTraitSymbolArg::Canyons => "CANYONS"@,
            WaypointTraitSymbolArg::PerpetualDaylight => "PERPETUAL_DAYLIGHT"@,
            WaypointTraitSymbolArg::PerpetualOvercast => "PERPETUAL_OVERCAST"@,
            WaypointTraitSymbolArg::DrySeabeds => "DRY_SEABEDS"@,
            WaypointTraitSymbolArg::MagmaSeas => "MAGMA_SEAS"@,
            WaypointTraitSymbolArg::Supervolcanoes => "SUPERVOLCANOES"@,
            WaypointTraitSymbolArg::AshClouds => "ASH_CLOUDS"@,
            WaypointTraitSymbolArg::VastRuins => "VAST_RUINS"@,
            WaypointTraitSymbolArg::MutatedFlora => "MUTATED_FLORA"@,
            WaypointTraitSymbolArg::Terraformed => "TERRAFORMED"@,
            WaypointTraitSymbolArg::ExtremeTemperatures => "EXTREME_TEMPERATURES"@,
            WaypointTraitSymbolArg::ExtremePressure => "EXTREME_PRESSURE"@,
            WaypointTraitSymbolArg::DiverseLife => "DIVERSE_LIFE"@,
            WaypointTraitSymbolArg::ScarceLife => "SCARCE_LIFE"@,
            WaypointTraitSymbolArg::Fossils => "FOSSILS"@,
            WaypointTraitSymbolArg::WeakGravity => "WEAK_GRAVITY"@,
            WaypointTraitSymbolArg::StrongGravity => "STRONG_GRAVITY"@,
            WaypointTraitSymbolArg::CrushingGravity => "CRUSHING_GRAVITY"@,
            WaypointTraitSymbolArg::ToxicAtmosphere => "TOXIC_ATMOSPHERE"@,
            WaypointTraitSymbolArg::CorrosiveAtmosphere => "CORROSIVE_ATMOSPHERE"@,
            WaypointTraitSymbolArg::BreathableAtmosphere => "BREATHABLE_ATMOSPHERE"@,
            WaypointTraitSymbolArg::ThinAtmosphere => "THIN_ATMOSPHERE"@,
            WaypointTraitSymbolArg::Jovian => "JOVIAN"@,
            WaypointTraitSymbolArg::Rocky => "ROCKY"@,
            WaypointTraitSymbolArg::Volcanic => "VOLCANIC"@,
            WaypointTraitSymbolArg::Frozen => "FROZEN"@,
            WaypointTraitSymbolArg::Swamp => "SWAMP"@,
            WaypointTraitSymbolArg::Barren => "BARREN"@,
            WaypointTraitSymbolArg::Temperate => "TEMPERATE"@,
            WaypointTraitSymbolArg::Jungle => "JUNGLE"@,
            WaypointTraitSymbolArg::Ocean => "OCEAN"@,
            WaypointTraitSymbolArg::Radioactive => "RADIOACTIVE"@,
            WaypointTraitSymbolArg::MicroGravityAnomalies => "MICRO_GRAVITY_ANOMALIES"@,
            WaypointTraitSymbolArg::DebrisCluster => "DEBRIS_CLUSTER"@,
            WaypointTraitSymbolArg::DeepCraters => "DEEP_CRATERS"@,
            WaypointTraitSymbolArg::ShallowCraters => "SHALLOW_CRATERS"@,
            WaypointTraitSymbolArg::UnstableComposition => "UNSTABLE_COMPOSITION"@,
            WaypointTraitSymbolArg::HollowedInterior => "HOLLOWED_INTERIOR"@,
            WaypointTraitSymbolArg::Stripped => "STRIPPED"@,
        }
    }

    /// The command-line word of this value.
    pub fn name(&self) -> (r: &'static str)
        ensures
            r@ == self.spec_name(),
    {
        match self {
            WaypointTraitSymbolArg::Uncharted => "uncharted",
            WaypointTraitSymbolArg::UnderConstruction => "under-construction",
            WaypointTraitSymbolArg::Marketplace => "marketplace",
            WaypointTraitSymbolArg::Shipyard => "shipyard",
            WaypointTraitSymbolArg::Outpost => "outpost",
            WaypointTraitSymbolArg::ScatteredSettlements => "scattered-settlements",
            WaypointTraitSymbolArg::SprawlingCities => "sprawling-cities",
            WaypointTraitSymbolArg::MegaStructures => "mega-structures",
            WaypointTraitSymbolArg::PirateBase => "pirate-base",
            WaypointTraitSymbolArg::Overcrowded => "overcrowded",
            WaypointTraitSymbolArg::HighTech => "high-tech",
            WaypointTraitSymbolArg::Corrupt => "corrupt",
            WaypointTraitSymbolArg::Bureaucratic => "bureaucratic",
            WaypointTraitSymbolArg::TradingHub => "trading-hub",
            WaypointTraitSymbolArg::Industrial => "industrial",
            WaypointTraitSymbolArg::BlackMarket => "black-market",
            WaypointTraitSymbolArg::ResearchFacility => "research-facility",
            WaypointTraitSymbolArg::MilitaryBase => "military-base",
            WaypointTraitSymbolArg::SurveillanceOutpost => "surveillance-outpost",
            WaypointTraitSymbolArg::ExplorationOutpost => "exploration-outpost",
            WaypointTraitSymbolArg::MineralDeposits => "mineral-deposits",
            WaypointTraitSymbolArg::CommonMetalDeposits => "common-metal-deposits",
            WaypointTraitSymbolArg::PreciousMetalDeposits => "precious-metal-deposits",
            WaypointTraitSymbolArg::RareMetalDeposits => "rare-metal-deposits",
            WaypointTraitSymbolArg::MethanePools => "methane-pools",
            WaypointTraitSymbolArg::IceCrystals => "ice-crystals",
            WaypointTraitSymbolArg::ExplosiveGases => "explosive-gases",
            WaypointTraitSymbolArg::StrongMagnetosphere => "strong-magnetosphere",
            WaypointTraitSymbolArg::VibrantAuroras => "vibrant-auroras",
            WaypointTraitSymbolArg::SaltFlats => "salt-flats",
            WaypointTraitSymbolArg::Canyons => "canyons",
            WaypointTraitSymbolArg::PerpetualDaylight => "perpetual-daylight",
            WaypointTraitSymbolArg::PerpetualOvercast => "perpetual-overcast",
            WaypointTraitSymbolArg::DrySeabeds => "dry-seabeds",
            WaypointTraitSymbolArg::MagmaSeas => "magma-seas",
            WaypointTraitSymbolArg::Supervolcanoes => "supervolcanoes",
            WaypointTraitSymbolArg::AshClouds => "ash-clouds",
            WaypointTraitSymbolArg::VastRuins => "vast-ruins",
            WaypointTraitSymbolArg::MutatedFlora => "mutated-flora",
            WaypointTraitSymbolArg::Terraformed => "terraformed",
            WaypointTraitSymbolArg::ExtremeTemperatures => "extreme-temperatures",
            WaypointTraitSymbolArg::ExtremePressure => "extreme-pressure",
            WaypointTraitSymbolArg::DiverseLife => "diverse-life",
            WaypointTraitSymbolArg::ScarceLife => "scarce-life",
            WaypointTraitSymbolArg::Fossils => "fossils",
            WaypointTraitSymbolArg::WeakGravity => "weak-gravity",
            WaypointTraitSymbolArg::StrongGravity => "strong-gravity",
            WaypointTraitSymbolArg::CrushingGravity => "crushing-gravity",
            WaypointTraitSymbolArg::ToxicAtmosphere => "toxic-atmosphere",
            WaypointTraitSymbolArg::CorrosiveAtmosphere => "corrosive-atmosphere",
            WaypointTraitSymbolArg::BreathableAtmosphere => "breathable-atmosphere",
            WaypointTraitSymbolArg::ThinAtmosphere => "thin-atmosphere",
            WaypointTraitSymbolArg::Jovian => "jovian",
            WaypointTraitSymbolArg::Rocky => "rocky",
            WaypointTraitSymbolArg::Volcanic => "volcanic",
            WaypointTraitSymbolArg::Frozen => "frozen",
            WaypointTraitSymbolArg::Swamp => "swamp",
            WaypointTraitSymbolArg::Barren => "barren",
            WaypointTraitSymbolArg::Temperate => "temperate",
            WaypointTraitSymbolArg::Jungle => "jungle",
            WaypointTraitSymbolArg::Ocean => "ocean",
            WaypointTraitSymbolArg::Radioactive => "radioactive",
            WaypointTraitSymbolArg::MicroGravityAnomalies => "micro-gravity-anomalies",
            WaypointTraitSymbolArg::DebrisCluster => "debris-cluster",
            WaypointTraitSymbolArg::DeepCraters => "deep-craters",
            WaypointTraitSymbolArg::ShallowCraters => "shallow-craters",
            WaypointTraitSymbolArg::UnstableComposition => "unstable-composition",
            WaypointTraitSymbolArg::HollowedInterior => "hollowed-interior",
            WaypointTraitSymbolArg::Stripped => "stripped",
        }
    }

    /// The remote service's symbol for this value.
    pub fn symbol(&self) -> (r: &'static str)
        ensures
            r@ == self.spec_symbol(),
    {
        match self {
            WaypointTraitSymbolArg::Uncharted => "UNCHARTED",
            WaypointTraitSymbolArg::UnderConstruction => "UNDER_CONSTRUCTION",
            WaypointTraitSymbolArg::Marketplace => "MARKETPLACE",
            WaypointTraitSymbolArg::Shipyard => "SHIPYARD",
            WaypointTraitSymbolArg::Outpost => "OUTPOST",
            WaypointTraitSymbolArg::ScatteredSettlements => "SCATTERED_SETTLEMENTS",
            WaypointTraitSymbolArg::SprawlingCities => "SPRAWLING_CITIES",
            WaypointTraitSymbolArg::MegaStructures => "MEGA_STRUCTURES",
            WaypointTraitSymbolArg::PirateBase => "PIRATE_BASE",
            WaypointTraitSymbolArg::Overcrowded => "OVERCROWDED",
            WaypointTraitSymbolArg::HighTech => "HIGH_TECH",
            WaypointTraitSymbolArg::Corrupt => "CORRUPT",
            WaypointTraitSymbolArg::Bureaucratic => "BUREAUCRATIC",
            WaypointTraitSymbolArg::TradingHub => "TRADING_HUB",
            WaypointTraitSymbolArg::Industrial => "INDUSTRIAL",
            WaypointTraitSymbolArg::BlackMarket => "BLACK_MARKET",
            WaypointTraitSymbolArg::ResearchFacility => "RESEARCH_FACILITY",
            WaypointTraitSymbolArg::MilitaryBase => "MILITARY_BASE",
            WaypointTraitSymbolArg::SurveillanceOutpost => "SURVEILLANCE_OUTPOST",
            WaypointTraitSymbolArg::ExplorationOutpost => "EXPLORATION_OUTPOST",
            WaypointTraitSymbolArg::MineralDeposits => "MINERAL_DEPOSITS",
            WaypointTraitSymbolArg::CommonMetalDeposits => "COMMON_METAL_DEPOSITS",
            WaypointTraitSymbolArg::PreciousMetalDeposits => "PRECIOUS_METAL_DEPOSITS",
            WaypointTraitSymbolArg::RareMetalDeposits => "RARE_METAL_DEPOSITS",
            WaypointTraitSymbolArg::MethanePools => "METHANE_POOLS",
            WaypointTraitSymbolArg::IceCrystals => "ICE_CRYSTALS",
            WaypointTraitSymbolArg::ExplosiveGases => "EXPLOSIVE_GASES",
            WaypointTraitSymbolArg::StrongMagnetosphere => "STRONG_MAGNETOSPHERE",
            WaypointTraitSymbolArg::VibrantAuroras => "VIBRANT_AURORAS",
            WaypointTraitSymbolArg::SaltFlats => "SALT_FLATS",
            WaypointTraitSymbolArg::Canyons => "CANYONS",
            WaypointTraitSymbolArg::PerpetualDaylight => "PERPETUAL_DAYLIGHT",
            WaypointTraitSymbolArg::PerpetualOvercast => "PERPETUAL_OVERCAST",
            WaypointTraitSymbolArg::DrySeabeds => "DRY_SEABEDS",
            WaypointTraitSymbolArg::MagmaSeas => "MAGMA_SEAS",
            WaypointTraitSymbolArg::Supervolcanoes => "SUPERVOLCANOES",
            WaypointTraitSymbolArg::AshClouds => "ASH_CLOUDS",
            WaypointTraitSymbolArg::VastRuins => "VAST_RUINS",
            WaypointTraitSymbolArg::MutatedFlora => "MUTATED_FLORA",
            WaypointTraitSymbolArg::Terraformed => "TERRAFORMED",
            WaypointTraitSymbolArg::ExtremeTemperatures => "EXTREME_TEMPERATURES",
            WaypointTraitSymbolArg::ExtremePressure => "EXTREME_PRESSURE",
            WaypointTraitSymbolArg::DiverseLife => "DIVERSE_LIFE",
            WaypointTraitSymbolArg::ScarceLife => "SCARCE_LIFE",
            WaypointTraitSymbolArg::Fossils => "FOSSILS",
            WaypointTraitSymbolArg::WeakGravity => "WEAK_GRAVITY",
            WaypointTraitSymbolArg::StrongGravity => "STRONG_GRAVITY",
            WaypointTraitSymbolArg::CrushingGravity => "CRUSHING_GRAVITY",
            WaypointTraitSymbolArg::ToxicAtmosphere => "TOXIC_ATMOSPHERE",
            WaypointTraitSymbolArg::CorrosiveAtmosphere => "CORROSIVE_ATMOSPHERE",
            WaypointTraitSymbolArg::BreathableAtmosphere => "BREATHABLE_ATMOSPHERE",
            WaypointTraitSymbolArg::ThinAtmosphere => "THIN_ATMOSPHERE",
            WaypointTraitSymbolArg::Jovian => "JOVIAN",
            WaypointTraitSymbolArg::Rocky => "ROCKY",
            WaypointTraitSymbolArg::Volcanic => "VOLCANIC",
            WaypointTraitSymbolArg::Frozen => "FROZEN",
            WaypointTraitSymbolArg::Swamp => "SWAMP",
            WaypointTraitSymbolArg::Barren => "BARREN",
            WaypointTraitSymbolArg::Temperate => "TEMPERATE",
            WaypointTraitSymbolArg::Jungle => "JUNGLE",
            WaypointTraitSymbolArg::Ocean => "OCEAN",
            WaypointTraitSymbolArg::Radioactive => "RADIOACTIVE",
            WaypointTraitSymbolArg::MicroGravityAnomalies => "MICRO_GRAVITY_ANOMALIES",
            WaypointTraitSymbolArg::DebrisCluster => "DEBRIS_CLUSTER",
            WaypointTraitSymbolArg::DeepCraters => "DEEP_CRATERS",
            WaypointTraitSymbolArg::ShallowCraters => "SHALLOW_CRATERS",
            WaypointTraitSymbolArg::UnstableComposition => "UNSTABLE_COMPOSITION",
            WaypointTraitSymbolArg::HollowedInterior => "HOLLOWED_INTERIOR",
            WaypointTraitSymbolArg::Stripped => "STRIPPED",
        }
    }

    /// Reads a waypoint trait from its command-line word.
    pub fn from_name(s: &str) -> (r: Option<WaypointTraitSymbolArg>)
        ensures
            r matches Some(v) ==> v.spec_name() == s@,
            r is None ==> forall|v: WaypointTraitSymbolArg| v.spec_name() != s@,
    {
        if str_eq(s, "uncharted") {
            return Some(WaypointTraitSymbolArg::Uncharted);
        }
        if str_eq(s, "under-construction") {
            return Some(WaypointTraitSymbolArg::UnderConstruction);
        }
        if str_eq(s, "marketplace") {
            return Some(WaypointTraitSymbolArg::Marketplace);
        }
        if str_eq(s, "shipyard") {
            return Some(WaypointTraitSymbolArg::Shipyard);
        }
        if str_eq(s, "outpost") {
            return Some(WaypointTraitSymbolArg::Outpost);
        }
        if str_eq(s, "scattered-settlements") {
            return Some(WaypointTraitSymbolArg::ScatteredSettlements);
        }
        if str_eq(s, "sprawling-cities") {
            return Some(WaypointTraitSymbolArg::SprawlingCities);
        }
        if str_eq(s, "mega-structures") {
            return Some(WaypointTraitSymbolArg::MegaStructures);
        }
        if str_eq(s, "pirate-base") {
            return Some(WaypointTraitSymbolArg::PirateBase);
        }
        if str_eq(s, "overcrowded") {
            return Some(WaypointTraitSymbolArg::Overcrowded);
        }
        if str_eq(s, "high-tech") {
            return Some(WaypointTraitSymbolArg::HighTech);
        }
        if str_eq(s, "corrupt") {
            return Some(WaypointTraitSymbolArg::Corrupt);
        }
        if str_eq(s, "bureaucratic") {
            return Some(WaypointTraitSymbolArg::Bureaucratic);
        }
        if str_eq(s, "trading-hub") {
            return Some(WaypointTraitSymbolArg::TradingHub);
        }
        if str_eq(s, "industrial") {
            return Some(WaypointTraitSymbolArg::Industrial);
        }
        if str_eq(s, "black-market") {
            return Some(WaypointTraitSymbolArg::BlackMarket);
        }
        if str_eq(s, "research-facility") {
            return Some(WaypointTraitSymbolArg::ResearchFacility);
        }
        if str_eq(s, "military-base") {
            return Some(WaypointTraitSymbolArg::MilitaryBase);
        }
        if str_eq(s, "surveillance-outpost") {
            return Some(WaypointTraitSymbolArg::SurveillanceOutpost);
        }
        if str_eq(s, "exploration-outpost") {
            return Some(WaypointTraitSymbolArg::ExplorationOutpost);
        }
        if str_eq(s, "mineral-deposits") {
            return Some(WaypointTraitSymbolArg::MineralDeposits);
        }
        if str_eq(s, "common-metal-deposits") {
            return Some(WaypointTraitSymbolArg::CommonMetalDeposits);
        }
        if str_eq(s, "precious-metal-deposits") {
            return Some(WaypointTraitSymbolArg::PreciousMetalDeposits);
        }
        if str_eq(s, "rare-metal-deposits") {
            return Some(WaypointTraitSymbolArg::RareMetalDeposits);
        }
        if str_eq(s, "methane-pools") {
            return Some(WaypointTraitSymbolArg::MethanePools);
        }
        if str_eq(s, "ice-crystals") {
            return Some(WaypointTraitSymbolArg::IceCrystals);
        }
        if str_eq(s, "explosive-gases") {
            return Some(WaypointTraitSymbolArg::ExplosiveGases);
        }
        if str_eq(s, "strong-magnetosphere") {
            return Some(WaypointTraitSymbolArg::StrongMagnetosphere);
        }
        if str_eq(s, "vibrant-auroras") {
            return Some(WaypointTraitSymbolArg::VibrantAuroras);
        }
        if str_eq(s, "salt-flats") {
            return Some(WaypointTraitSymbolArg::SaltFlats);
        }
        if str_eq(s, "canyons") {
            return Some(WaypointTraitSymbolArg::Canyons);
        }
        if str_eq(s, "perpetual-daylight") {
            return Some(WaypointTraitSymbolArg::PerpetualDaylight);
        }
        if str_eq(s, "perpetual-overcast") {
            return Some(WaypointTraitSymbolArg::PerpetualOvercast);
        }
        if str_eq(s, "dry-seabeds") {
            return Some(WaypointTraitSymbolArg::DrySeabeds);
        }
        if str_eq(s, "magma-seas") {
            return Some(WaypointTraitSymbolArg::MagmaSeas);
        }
        if str_eq(s, "supervolcanoes") {
            return Some(WaypointTraitSymbolArg::Supervolcanoes);
        }
        if str_eq(s, "ash-clouds") {
            return Some(WaypointTraitSymbolArg::AshClouds);
        }
        if str_eq(s, "vast-ruins") {
            return Some(WaypointTraitSymbolArg::VastRuins);
        }
        if str_eq(s, "mutated-flora") {
            return Some(WaypointTraitSymbolArg::MutatedFlora);
        }
        if str_eq(s, "terraformed") {
            return Some(WaypointTraitSymbolArg::Terraformed);
        }
        if str_eq(s, "extreme-temperatures") {
            return Some(WaypointTraitSymbolArg::ExtremeTemperatures);
        }
        if str_eq(s, "extreme-pressure") {
            return Some(WaypointTraitSymbolArg::ExtremePressure);
        }
        if str_eq(s, "diverse-life") {
            return Some(WaypointTraitSymbolArg::DiverseLife);
        }
        if str_eq(s, "scarce-life") {
            return Some(WaypointTraitSymbolArg::ScarceLife);
        }
        if str_eq(s, "fossils") {
            return Some(WaypointTraitSymbolArg::Fossils);
        }
        if str_eq(s, "weak-gravity") {
            return Some(WaypointTraitSymbolArg::WeakGravity);
        }
        if str_eq(s, "strong-gravity") {
            return Some(WaypointTraitSymbolArg::StrongGravity);
        }
        if str_eq(s, "crushing-gravity") {
            return Some(WaypointTraitSymbolArg::CrushingGravity);
        }
        if str_eq(s, "toxic-atmosphere") {
            return Some(WaypointTraitSymbolArg::ToxicAtmosphere);
        }
        if str_eq(s, "corrosive-atmosphere") {
            return Some(WaypointTraitSymbolArg::CorrosiveAtmosphere);
        }
        if str_eq(s, "breathable-atmosphere") {
            return Some(WaypointTraitSymbolArg::BreathableAtmosphere);
        }
        if str_eq(s, "thin-atmosphere") {
            return Some(WaypointTraitSymbolArg::ThinAtmosphere);
        }
        if str_eq(s, "jovian") {
            return Some(WaypointTraitSymbolArg::Jovian);
        }
        if str_eq(s, "rocky") {
            return Some(WaypointTraitSymbolArg::Rocky);
        }
        if str_eq(s, "volcanic") {
            return Some(WaypointTraitSymbolArg::Volcanic);
        }
        if str_eq(s, "frozen") {
            return Some(WaypointTraitSymbolArg::Frozen);
        }
        if str_eq(s, "swamp") {
            return Some(WaypointTraitSymbolArg::Swamp);
        }
        if str_eq(s, "barren") {
            return Some(WaypointTraitSymbolArg::Barren);
        }
        if str_eq(s, "temperate") {
            return Some(WaypointTraitSymbolArg::Temperate);
        }
        if str_eq(s, "jungle") {
            return Some(WaypointTraitSymbolArg::Jungle);
        }
        if str_eq(s, "ocean") {
            return Some(WaypointTraitSymbolArg::Ocean);
        }
        if str_eq(s, "radioactive") {
            return Some(WaypointTraitSymbolArg::Radioactive);
        }
        if str_eq(s, "micro-gravity-anomalies") {
            return Some(WaypointTraitSymbolArg::MicroGravityAnomalies);
        }
        if str_eq(s, "debris-cluster") {
            return Some(WaypointTraitSymbolArg::DebrisCluster);
        }
        if str_eq(s, "deep-craters") {
            return Some(WaypointTraitSymbolArg::DeepCraters);
        }
        if str_eq(s, "shallow-craters") {
            return Some(WaypointTraitSymbolArg::ShallowCraters);
        }
        if str_eq(s, "unstable-composition") {
            return Some(WaypointTraitSymbolArg::UnstableComposition);
        }
        if str_eq(s, "hollowed-interior") {
            return Some(WaypointTraitSymbolArg::HollowedInterior);
        }
        if str_eq(s, "stripped") {
            return Some(WaypointTraitSymbolArg::Stripped);
        }
        None
    }

    /// Reads a waypoint trait from the remote service's symbol.
    pub fn from_symbol(s: &str) -> (r: Option<WaypointTraitSymbolArg>)
        ensures
            r matches Some(v) ==> v.spec_symbol() == s@,
            r is None ==> forall|v: WaypointTraitSymbolArg| v.spec_symbol() != s@,
    {
        if str_eq(s, "UNCHARTED") {
            return Some(WaypointTraitSymbolArg::Uncharted);
        }
        if str_eq(s, "UNDER_CONSTRUCTION") {
            return Some(WaypointTraitSymbolArg::UnderConstruction);
        }
        if str_eq(s, "MARKETPLACE") {
            return Some(WaypointTraitSymbolArg::Marketplace);
        }
        if str_eq(s, "SHIPYARD") {
            return Some(WaypointTraitSymbolArg::Shipyard);
        }
        if str_eq(s, "OUTPOST") {
            return Some(WaypointTraitSymbolArg::Outpost);
        }
        if str_eq(s, "SCATTERED_SETTLEMENTS") {
            return Some(WaypointTraitSymbolArg::ScatteredSettlements);
        }
        if str_eq(s, "SPRAWLING_CITIES") {
            return Some(WaypointTraitSymbolArg::SprawlingCities);
        }
        if str_eq(s, "MEGA_STRUCTURES") {
            return Some(WaypointTraitSymbolArg::MegaStructures);
        }
        if str_eq(s, "PIRATE_BASE") {
            return Some(WaypointTraitSymbolArg::PirateBase);
        }
        if str_eq(s, "OVERCROWDED") {
            return Some(WaypointTraitSymbolArg::Overcrowded);
        }
        if str_eq(s, "HIGH_TECH") {
            return Some(WaypointTraitSymbolArg::HighTech);
        }
        if str_eq(s, "CORRUPT") {
            return Some(WaypointTraitSymbolArg::Corrupt);
        }
        if str_eq(s, "BUREAUCRATIC") {
            return Some(WaypointTraitSymbolArg::Bureaucratic);
        }
        if str_eq(s, "TRADING_HUB") {
            return Some(WaypointTraitSymbolArg::TradingHub);
        }
        if str_eq(s, "INDUSTRIAL") {
            return Some(WaypointTraitSymbolArg::Industrial);
        }
        if str_eq(s, "BLACK_MARKET") {
            return Some(WaypointTraitSymbolArg::BlackMarket);
        }
        if str_eq(s, "RESEARCH_FACILITY") {
            return Some(WaypointTraitSymbolArg::ResearchFacility);
        }
        if str_eq(s, "MILITARY_BASE") {
            return Some(WaypointTraitSymbolArg::MilitaryBase);
        }
        if str_eq(s, "SURVEILLANCE_OUTPOST") {
            return Some(WaypointTraitSymbolArg::SurveillanceOutpost);
        }
        if str_eq(s, "EXPLORATION_OUTPOST") {
            return Some(WaypointTraitSymbolArg::ExplorationOutpost);
        }
        if str_eq(s, "MINERAL_DEPOSITS") {
            return Some(WaypointTraitSymbolArg::MineralDeposits);
        }
        if str_eq(s, "COMMON_METAL_DEPOSITS") {
            return Some(WaypointTraitSymbolArg::CommonMetalDeposits);
        }
        if str_eq(s, "PRECIOUS_METAL_DEPOSITS") {
            return Some(WaypointTraitSymbolArg::PreciousMetalDeposits);
        }
        if str_eq(s, "RARE_METAL_DEPOSITS") {
            return Some(WaypointTraitSymbolArg::RareMetalDeposits);
        }
        if str_eq(s, "METHANE_POOLS") {
            return Some(WaypointTraitSymbolArg::MethanePools);
        }
        if str_eq(s, "ICE_CRYSTALS") {
            return Some(WaypointTraitSymbolArg::IceCrystals);
        }
        if str_eq(s, "EXPLOSIVE_GASES") {
            return Some(WaypointTraitSymbolArg::ExplosiveGases);
        }
        if str_eq(s, "STRONG_MAGNETOSPHERE") {
            return Some(WaypointTraitSymbolArg::StrongMagnetosphere);
        }
        if str_eq(s, "VIBRANT_AURORAS") {
            return Some(WaypointTraitSymbolArg::VibrantAuroras);
        }
        if str_eq(s, "SALT_FLATS") {
            return Some(WaypointTraitSymbolArg::SaltFlats);
        }
        if str_eq(s, "CANYONS") {
            return Some(WaypointTraitSymbolArg::Canyons);
        }
        if str_eq(s, "PERPETUAL_DAYLIGHT") {
            return Some(WaypointTraitSymbolArg::PerpetualDaylight);
        }
        if str_eq(s, "PERPETUAL_OVERCAST") {
            return Some(WaypointTraitSymbolArg::PerpetualOvercast);
        }
        if str_eq(s, "DRY_SEABEDS") {
            return Some(WaypointTraitSymbolArg::DrySeabeds);
        }
        if str_eq(s, "MAGMA_SEAS") {
            return Some(WaypointTraitSymbolArg::MagmaSeas);
        }
        if str_eq(s, "SUPERVOLCANOES") {
            return Some(WaypointTraitSymbolArg::Supervolcanoes);
        }
        if str_eq(s, "ASH_CLOUDS") {
            return Some(WaypointTraitSymbolArg::AshClouds);
        }
        if str_eq(s, "VAST_RUINS") {
            return Some(WaypointTraitSymbolArg::VastRuins);
        }
        if str_eq(s, "MUTATED_FLORA") {
            return Some(WaypointTraitSymbolArg::MutatedFlora);
        }
        if str_eq(s, "TERRAFORMED") {
            return Some(WaypointTraitSymbolArg::Terraformed);
        }
        if str_eq(s, "EXTREME_TEMPERATURES") {
            return Some(WaypointTraitSymbolArg::ExtremeTemperatures);
        }
        if str_eq(s, "EXTREME_PRESSURE") {
            return Some(WaypointTraitSymbolArg::ExtremePressure);
        }
        if str_eq(s, "DIVERSE_LIFE") {
            return Some(WaypointTraitSymbolArg::DiverseLife);
        }
        if str_eq(s, "SCARCE_LIFE") {
            return Some(WaypointTraitSymbolArg::ScarceLife);
        }
        if str_eq(s, "FOSSILS") {
            return Some(WaypointTraitSymbolArg::Fossils);
        }
        if str_eq(s, "WEAK_GRAVITY") {
            return Some(WaypointTraitSymbolArg::WeakGravity);
        }
        if str_eq(s, "STRONG_GRAVITY") {
            return Some(WaypointTraitSymbolArg::StrongGravity);
        }
        if str_eq(s, "CRUSHING_GRAVITY") {
            return Some(WaypointTraitSymbolArg::CrushingGravity);
        }
        if str_eq(s, "TOXIC_ATMOSPHERE") {
            return Some(WaypointTraitSymbolArg::ToxicAtmosphere);
        }
        if str_eq(s, "CORROSIVE_ATMOSPHERE") {
            return Some(WaypointTraitSymbolArg::CorrosiveAtmosphere);
        }
        if str_eq(s, "BREATHABLE_ATMOSPHERE") {
            return Some(WaypointTraitSymbolArg::BreathableAtmosphere);
        }
        if str_eq(s, "THIN_ATMOSPHERE") {
            return Some(WaypointTraitSymbolArg::ThinAtmosphere);
        }
        if str_eq(s, "JOVIAN") {
            return Some(WaypointTraitSymbolArg::Jovian);
        }
        if str_eq(s, "ROCKY") {
            return Some(WaypointTraitSymbolArg::Rocky);
        }
        if str_eq(s, "VOLCANIC") {
            return Some(WaypointTraitSymbolArg::Volcanic);
        }
        if str_eq(s, "FROZEN") {
            return Some(WaypointTraitSymbolArg::Frozen);
        }
        if str_eq(s, "SWAMP") {
            return Some(WaypointTraitSymbolArg::Swamp);
        }
        if str_eq(s, "BARREN") {
            return Some(WaypointTraitSymbolArg::Barren);
        }
        if str_eq(s, "TEMPERATE") {
            return Some(WaypointTraitSymbolArg::Temperate);
        }
        if str_eq(s, "JUNGLE") {
            return Some(WaypointTraitSymbolArg::Jungle);
        }
        if str_eq(s, "OCEAN") {
            return Some(WaypointTraitSymbolArg::Ocean);
        }
        if str_eq(s, "RADIOACTIVE") {
            return Some(WaypointTraitSymbolArg::Radioactive);
        }
        if str_eq(s, "MICRO_GRAVITY_ANOMALIES") {
            return Some(WaypointTraitSymbolArg::MicroGravityAnomalies);
        }
        if str_eq(s, "DEBRIS_CLUSTER") {
            return Some(WaypointTraitSymbolArg::DebrisCluster);
        }
        if str_eq(s, "DEEP_CRATERS") {
            return Some(WaypointTraitSymbolArg::DeepCraters);
        }
        if str_eq(s, "SHALLOW_CRATERS") {
            return Some(WaypointTraitSymbolArg::ShallowCraters);
        }
        if str_eq(s, "UNSTABLE_COMPOSITION") {
            return Some(WaypointTraitSymbolArg::UnstableComposition);
        }
        if str_eq(s, "HOLLOWED_INTERIOR") {
            return Some(WaypointTraitSymbolArg::HollowedInterior);
        }
        if str_eq(s, "STRIPPED") {
            return Some(WaypointTraitSymbolArg::Stripped);
        }
        None
    }
}

} // verus!
