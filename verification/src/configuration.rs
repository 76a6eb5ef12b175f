//! The player's world: platform, seed and the optional hints that some shops read.

use vstd::prelude::*;

verus! {

/// The platform the world is played on. It selects the random number generator and, for
/// some shops, the order in which draws and checks are made.
#[derive(Clone, Copy, Debug, PartialEq, Eq, Structural)]
pub enum Platform {
    PC,
    Switch,
}

impl Platform {
    /// The platform's display name.
    pub fn to_string(&self) -> (name: String)
        ensures
            name@ == (match *self {
                Platform::PC => "PC"@,
                Platform::Switch => "Switch"@,
            }),
    {
        match self {
            Platform::PC => String::from_str("PC"),
            Platform::Switch => String::from_str("Switch"),
        }
    }
}

/// An answer to a question that the player may leave open.
#[derive(Clone, Copy, Debug, PartialEq, Eq, Structural)]
pub enum YesNo {
    Yes,
    No,
}

impl YesNo {
    /// The answer's display name.
    pub fn to_string(&self) -> (name: String)
        ensures
            name@ == (match *self {
                YesNo::Yes => "Yes"@,
                YesNo::No => "No"@,
            }),
    {
        match self {
            YesNo::Yes => String::from_str("Yes"),
            YesNo::No => String::from_str("No"),
        }
    }

    /// An answer as a hint of the configuration; an open question gives no hint.
    pub fn hint(answer: Option<YesNo>) -> (hint: Option<bool>)
        ensures
            hint == (match answer {
                Some(YesNo::Yes) => Some(true),
                Some(YesNo::No) => Some(false),
                None => None,
            }),
    {
        match answer {
            Some(YesNo::Yes) => Some(true),
            Some(YesNo::No) => Some(false),
            None => None,
        }
    }
}

/// Everything a shop's algorithm reads about the world. It is never changed after it is made.
#[derive(Clone, Copy, Debug, PartialEq, Eq)]
pub struct Configuration {
    pub platform: Platform,
    pub seed: i32,
    pub date: Option<i32>,
    pub geodes_cracked: Option<u16>,
    pub mine_level: Option<u8>,
    pub qis_crop: Option<bool>,
    pub golden_helmet: Option<bool>,
}

/// Why a configuration could not be made.
#[derive(Clone, Copy, Debug, PartialEq, Eq, Structural)]
pub enum ConfigurationError {
    /// The platform or the seed is missing.
    Incomplete,
}

impl ConfigurationError {
    /// The message shown to the player.
    pub fn to_string(&self) -> (message: String)
        ensures
            message@ == "Platform and seed must be set."@,
    {
        String::from_str("Platform and seed must be set.")
    }
}

impl Configuration {
    /// Makes a configuration from what the player entered. Platform and seed are required;
    /// every other field is carried over as it is.
    pub fn new(
        platform: Option<Platform>,
        seed: Option<i32>,
        date: Option<i32>,
        geodes_cracked: Option<u16>,
        mine_level: Option<u8>,
        qis_crop: Option<bool>,
        golden_helmet: Option<bool>,
    ) -> (result: Result<Configuration, ConfigurationError>)
        ensures
            platform is Some && seed is Some ==> result == Ok::<Configuration, ConfigurationError>(
                (Configuration {
                    platform: platform->0,
                    seed: seed->0,
                    date,
                    geodes_cracked,
                    mine_level,
                    qis_crop,
                    golden_helmet,
                }),
            ),
            platform is None || seed is None ==> result == Err::<
                Configuration,
                ConfigurationError,
            >(ConfigurationError::Incomplete),
    {
        match (platform, seed) {
            (Some(platform), Some(seed)) => Ok(
                Configuration {
                    platform,
                    seed,
                    date,
                    geodes_cracked,
                    mine_level,
                    qis_crop,
                    golden_helmet,
                },
            ),
            _ => Err(ConfigurationError::Incomplete),
        }
    }

    /// The deepest mine level reached, 120 where the player gave none.
    pub fn mine_level_or_default(&self) -> (level: u8)
        ensures
            level == (match self.mine_level {
                Some(l) => l,
                None => 120u8,
            }),
    {
        match self.mine_level {
            Some(l) => l,
            None => 120u8,
        }
    }

    /// Whether the special-order crop quest is active; not, where the player gave no answer.
    pub fn qis_crop_or_default(&self) -> (active: bool)
        ensures
            active == (match self.qis_crop {
                Some(b) => b,
                None => false,
            }),
    {
        match self.qis_crop {
            Some(b) => b,
            None => false,
        }
    }

    /// Whether the golden helmet was already received; received, where the player gave no
    /// answer.
    pub fn golden_helmet_or_default(&self) -> (received: bool)
        ensures
            received == (match self.golden_helmet {
                Some(b) => b,
                None => true,
            }),
    {
        match self.golden_helmet {
            Some(b) => b,
            None => true,
        }
    }
}

} // verus!
