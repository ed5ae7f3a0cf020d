//! Level- and job-dependent coefficient tables for the damage formula,
//! fixed at level 80.

use crate::actor::stat::Stat;
use vstd::prelude::*;

verus! {

#[derive(PartialEq, Eq, Structural, Copy, Clone, Debug)]
pub enum LevelColumn {
    MP,
    MAIN,
    SUB,
    DIV,
    HP,
    ELMT,
    THREAT,
}

pub open spec fn level_modifiers_spec(column: LevelColumn) -> int {
    match column {
        LevelColumn::MP => 10000,
        LevelColumn::MAIN => 340,
        LevelColumn::SUB => 380,
        LevelColumn::DIV => 3300,
        LevelColumn::HP => 4400,
        LevelColumn::ELMT => 0,
        LevelColumn::THREAT => 569,
    }
}

/// The level-80 row of the level-modifier table.
pub fn level_modifiers(column: LevelColumn) -> (r: i64)
    ensures
        r == level_modifiers_spec(column),
{
    match column {
        LevelColumn::MP => 10000,
        LevelColumn::MAIN => 340,
        LevelColumn::SUB => 380,
        LevelColumn::DIV => 3300,
        LevelColumn::HP => 4400,
        LevelColumn::ELMT => 0,
        LevelColumn::THREAT => 569,
    }
}

#[derive(PartialEq, Eq, Structural, Hash, Copy, Clone, Debug)]
pub enum Job {
    GLA,
    PGL,
    MRD,
    LNC,
    ARC,
    CNJ,
    THM,
    PLD,
    MNK,
    WAR,
    DRG,
    BRD,
    WHM,
    BLM,
    ACN,
    SMN,
    SCH,
    ROG,
    NIN,
    MCH,
    DRK,
    AST,
    SAM,
    RDM,
    BLU,
    GNB,
    DNC,
    NONE,
}

pub open spec fn primary_stat_spec(job: Job) -> Stat {
    match job {
        Job::LNC | Job::PGL | Job::DRG | Job::MNK | Job::SAM => Stat::Strength,
        Job::ARC | Job::ROG | Job::BRD | Job::NIN | Job::MCH | Job::DNC => Stat::Dexterity,
        Job::GLA | Job::MRD | Job::PLD | Job::WAR | Job::DRK | Job::GNB => Stat::Strength,
        Job::THM | Job::ACN | Job::BLM | Job::SMN | Job::RDM | Job::BLU => Stat::Intelligence,
        Job::CNJ | Job::WHM | Job::SCH | Job::AST => Stat::Mind,
        Job::NONE => Stat::Strength,
    }
}

pub open spec fn trait_multiplier_spec(job: Job) -> int {
    match job {
        Job::ARC | Job::BRD | Job::MCH | Job::DNC => 120,
        Job::THM | Job::ACN | Job::BLM | Job::SMN | Job::RDM => 130,
        Job::CNJ | Job::WHM | Job::SCH | Job::AST => 130,
        Job::BLU => 150,
        _ => 100,
    }
}

pub open spec fn is_tank_spec(job: Job) -> bool {
    match job {
        Job::GLA | Job::MRD | Job::PLD | Job::WAR | Job::DRK | Job::GNB => true,
        _ => false,
    }
}

impl Job {
    /// The attribute whose job modifier scales this job's weapon damage.
    /// `Job::NONE` has no primary stat and is excluded.
    pub fn primary_stat(&self) -> (r: Stat)
        requires
            *self != Job::NONE,
        ensures
            r == primary_stat_spec(*self),
    {
        match self {
            Job::LNC | Job::PGL | Job::DRG | Job::MNK | Job::SAM => Stat::Strength,
            Job::ARC | Job::ROG | Job::BRD | Job::NIN | Job::MCH | Job::DNC => Stat::Dexterity,
            Job::GLA | Job::MRD | Job::PLD | Job::WAR | Job::DRK | Job::GNB => Stat::Strength,
            Job::THM | Job::ACN | Job::BLM | Job::SMN | Job::RDM | Job::BLU => Stat::Intelligence,
            Job::CNJ | Job::WHM | Job::SCH | Job::AST => Stat::Mind,
            Job::NONE => Stat::Strength,
        }
    }

    /// The percentage multiplier of the job's damage trait.
    pub fn trait_multiplier(&self) -> (r: i64)
        ensures
            r == trait_multiplier_spec(*self),
    {
        match self {
            Job::ARC | Job::BRD | Job::MCH | Job::DNC => 120,
            Job::THM | Job::ACN | Job::BLM | Job::SMN | Job::RDM => 130,
            Job::CNJ | Job::WHM | Job::SCH | Job::AST => 130,
            Job::BLU => 150,
            _ => 100,
        }
    }

    pub fn is_tank(self) -> (r: bool)
        ensures
            r == is_tank_spec(self),
    {
        match self {
            Job::GLA | Job::MRD | Job::PLD | Job::WAR | Job::DRK | Job::GNB => true,
            _ => false,
        }
    }
}

pub open spec fn job_modifiers_spec(job: Job, stat: Stat) -> int {
    match stat {
        Stat::Strength => match job {
            Job::GLA => 95,
            Job::PGL => 100,
            Job::MRD => 100,
            Job::LNC => 105,
            Job::ARC => 85,
            Job::CNJ => 50,
            Job::THM => 40,
            Job::PLD => 100,
            Job::MNK => 110,
            Job::WAR => 105,
            Job::DRG => 115,
            Job::BRD => 90,
            Job::WHM => 55,
            Job::BLM => 45,
            Job::ACN => 85,
            Job::SMN => 90,
            Job::SCH => 90,
            Job::ROG => 80,
            Job::NIN => 85,
            Job::MCH => 85,
            Job::DRK => 105,
            Job::AST => 50,
            Job::SAM => 112,
            Job::RDM => 55,
            Job::BLU => 70,
            Job::GNB => 100,
            Job::DNC => 90,
            Job::NONE => 0,
        },
        Stat::Vitality => match job {
            Job::GLA => 100,
            Job::PGL => 95,
            Job::MRD => 100,
            Job::LNC => 100,
            Job::ARC => 95,
            Job::CNJ => 95,
            Job::THM => 95,
            Job::PLD => 110,
            Job::MNK => 100,
            Job::WAR => 110,
            Job::DRG => 105,
            Job::BRD => 100,
            Job::WHM => 100,
            Job::BLM => 100,
            Job::ACN => 95,
            Job::SMN => 100,
            Job::SCH => 100,
            Job::ROG => 95,
            Job::NIN => 100,
            Job::MCH => 100,
            Job::DRK => 110,
            Job::AST => 100,
            Job::SAM => 100,
            Job::RDM => 100,
            Job::BLU => 100,
            Job::GNB => 110,
            Job::DNC => 100,
            Job::NONE => 0,
        },
        Stat::Dexterity => match job {
            Job::GLA => 90,
            Job::PGL => 100,
            Job::MRD => 90,
            Job::LNC => 95,
            Job::ARC => 105,
            Job::CNJ => 100,
            Job::THM => 95,
            Job::PLD => 95,
            Job::MNK => 105,
            Job::WAR => 95,
            Job::DRG => 100,
            Job::BRD => 115,
            Job::WHM => 105,
            Job::BLM => 100,
            Job::ACN => 95,
            Job::SMN => 100,
            Job::SCH => 100,
            Job::ROG => 100,
            Job::NIN => 110,
            Job::MCH => 115,
            Job::DRK => 95,
            Job::AST => 100,
            Job::SAM => 108,
            Job::RDM => 105,
            Job::BLU => 110,
            Job::GNB => 95,
            Job::DNC => 115,
            Job::NONE => 0,
        },
        Stat::Intelligence => match job {
            Job::GLA => 50,
            Job::PGL => 45,
            Job::MRD => 30,
            Job::LNC => 40,
            Job::ARC => 80,
            Job::CNJ => 100,
            Job::THM => 105,
            Job::PLD => 60,
            Job::MNK => 50,
            Job::WAR => 40,
            Job::DRG => 45,
            Job::BRD => 85,
            Job::WHM => 105,
            Job::BLM => 115,
            Job::ACN => 105,
            Job::SMN => 115,
            Job::SCH => 105,
            Job::ROG => 60,
            Job::NIN => 65,
            Job::MCH => 80,
            Job::DRK => 60,
            Job::AST => 105,
            Job::SAM => 60,
            Job::RDM => 115,
            Job::BLU => 115,
            Job::GNB => 60,
            Job::DNC => 85,
            Job::NONE => 0,
        },
        Stat::Mind => match job {
            Job::GLA => 95,
            Job::PGL => 85,
            Job::MRD => 50,
            Job::LNC => 60,
            Job::ARC => 75,
            Job::CNJ => 105,
            Job::THM => 70,
            Job::PLD => 100,
            Job::MNK => 90,
            Job::WAR => 55,
            Job::DRG => 65,
            Job::BRD => 80,
            Job::WHM => 115,
            Job::BLM => 75,
            Job::ACN => 75,
            Job::SMN => 80,
            Job::SCH => 115,
            Job::ROG => 70,
            Job::NIN => 75,
            Job::MCH => 85,
            Job::DRK => 40,
            Job::AST => 115,
            Job::SAM => 50,
            Job::RDM => 110,
            Job::BLU => 105,
            Job::GNB => 100,
            Job::DNC => 80,
            Job::NONE => 0,
        },
        _ => 0,
    }
}

/// The per-job attribute modifier table.  `Job::NONE` has no row and is
/// excluded.
pub fn job_modifiers(job: Job, stat: Stat) -> (r: i64)
    requires
        job != Job::NONE,
    ensures
        r == job_modifiers_spec(job, stat),
{
    match stat {
        Stat::Strength => match job {
            Job::GLA => 95,
            Job::PGL => 100,
            Job::MRD => 100,
            Job::LNC => 105,
            Job::ARC => 85,
            Job::CNJ => 50,
            Job::THM => 40,
            Job::PLD => 100,
            Job::MNK => 110,
            Job::WAR => 105,
            Job::DRG => 115,
            Job::BRD => 90,
            Job::WHM => 55,
            Job::BLM => 45,
            Job::ACN => 85,
            Job::SMN => 90,
            Job::SCH => 90,
            Job::ROG => 80,
            Job::NIN => 85,
            Job::MCH => 85,
            Job::DRK => 105,
            Job::AST => 50,
            Job::SAM => 112,
            Job::RDM => 55,
            Job::BLU => 70,
            Job::GNB => 100,
            Job::DNC => 90,
            Job::NONE => 0,
        },
        Stat::Vitality => match job {
            Job::GLA => 100,
            Job::PGL => 95,
            Job::MRD => 100,
            Job::LNC => 100,
            Job::ARC => 95,
            Job::CNJ => 95,
            Job::THM => 95,
            Job::PLD => 110,
            Job::MNK => 100,
            Job::WAR => 110,
            Job::DRG => 105,
            Job::BRD => 100,
            Job::WHM => 100,
            Job::BLM => 100,
            Job::ACN => 95,
            Job::SMN => 100,
            Job::SCH => 100,
            Job::ROG => 95,
            Job::NIN => 100,
            Job::MCH => 100,
            Job::DRK => 110,
            Job::AST => 100,
            Job::SAM => 100,
            Job::RDM => 100,
            Job::BLU => 100,
            Job::GNB => 110,
            Job::DNC => 100,
            Job::NONE => 0,
        },
        Stat::Dexterity => match job {
            Job::GLA => 90,
            Job::PGL => 100,
            Job::MRD => 90,
            Job::LNC => 95,
            Job::ARC => 105,
            Job::CNJ => 100,
            Job::THM => 95,
            Job::PLD => 95,
            Job::MNK => 105,
            Job::WAR => 95,
            Job::DRG => 100,
            Job::BRD => 115,
            Job::WHM => 105,
            Job::BLM => 100,
            Job::ACN => 95,
            Job::SMN => 100,
            Job::SCH => 100,
            Job::ROG => 100,
            Job::NIN => 110,
            Job::MCH => 115,
            Job::DRK => 95,
            Job::AST => 100,
            Job::SAM => 108,
            Job::RDM => 105,
            Job::BLU => 110,
            Job::GNB => 95,
            Job::DNC => 115,
            Job::NONE => 0,
        },
        Stat::Intelligence => match job {
            Job::GLA => 50,
            Job::PGL => 45,
            Job::MRD => 30,
            Job::LNC => 40,
            Job::ARC => 80,
            Job::CNJ => 100,
            Job::THM => 105,
            Job::PLD => 60,
            Job::MNK => 50,
            Job::WAR => 40,
            Job::DRG => 45,
            Job::BRD => 85,
            Job::WHM => 105,
            Job::BLM => 115,
            Job::ACN => 105,
            Job::SMN => 115,
            Job::SCH => 105,
            Job::ROG => 60,
            Job::NIN => 65,
            Job::MCH => 80,
            Job::DRK => 60,
            Job::AST => 105,
            Job::SAM => 60,
            Job::RDM => 115,
            Job::BLU => 115,
            Job::GNB => 60,
            Job::DNC => 85,
            Job::NONE => 0,
        },
        Stat::Mind => match job {
            Job::GLA => 95,
            Job::PGL => 85,
            Job::MRD => 50,
            Job::LNC => 60,
            Job::ARC => 75,
            Job::CNJ => 105,
            Job::THM => 70,
            Job::PLD => 100,
            Job::MNK => 90,
            Job::WAR => 55,
            Job::DRG => 65,
            Job::BRD => 80,
            Job::WHM => 115,
            Job::BLM => 75,
            Job::ACN => 75,
            Job::SMN => 80,
            Job::SCH => 115,
            Job::ROG => 70,
            Job::NIN => 75,
            Job::MCH => 85,
            Job::DRK => 40,
            Job::AST => 115,
            Job::SAM => 50,
            Job::RDM => 110,
            Job::BLU => 105,
            Job::GNB => 100,
            Job::DNC => 80,
            Job::NONE => 0,
        },
        _ => 0,
    }
}

} // verus!
