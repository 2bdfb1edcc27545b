//! The settings: the two endpoints to switch between, and the shortcut.

use vstd::prelude::*;

verus! {

/// The settings. `speakers` and `headphones` are endpoint ids; `hotkey` is
/// the text of the shortcut that toggles between them.
#[derive(Debug, PartialEq, Eq)]
pub struct Config {
    pub speakers: String,
    pub headphones: String,
    pub hotkey: String,
}

/// The content of a `Config`.
pub struct ConfigText {
    pub speakers: Seq<char>,
    pub headphones: Seq<char>,
    pub hotkey: Seq<char>,
}

impl ConfigText {
    /// The id of the speakers, or that of the headphones.
    pub open spec fn endpoint(self, speakers: bool) -> Seq<char> {
        if speakers {
            self.speakers
        } else {
            self.headphones
        }
    }

    /// The two endpoints are different.
    pub open spec fn distinct(self) -> bool {
        self.speakers != self.headphones
    }
}

impl View for Config {
    type V = ConfigText;

    open spec fn view(&self) -> ConfigText {
        ConfigText { speakers: self.speakers@, headphones: self.headphones@, hotkey: self.hotkey@ }
    }
}

/// Why settings were refused.
#[derive(Clone, Copy, Debug, PartialEq, Eq, Structural)]
pub enum ConfigError {
    /// Speakers and headphones are the same endpoint.
    SameEndpoint,
}

impl Config {
    /// The settings are usable: the two endpoints are different.
    pub open spec fn wf(&self) -> bool {
        self@.distinct()
    }

    /// Settings for two different endpoints. The same endpoint twice is
    /// refused.
    pub fn new(speakers: String, headphones: String, hotkey: String) -> (r: Result<
        Config,
        ConfigError,
    >)
        ensures
            match r {
                Ok(c) => speakers@ != headphones@ && c.wf() && c@ == (ConfigText {
                    speakers: speakers@,
                    headphones: headphones@,
                    hotkey: hotkey@,
                }),
                Err(e) => speakers@ == headphones@ && e == ConfigError::SameEndpoint,
            },
    {
        if speakers == headphones {
            Err(ConfigError::SameEndpoint)
        } else {
            Ok(Config { speakers, headphones, hotkey })
        }
    }

    /// Whether the two endpoints are different.
    pub fn is_valid(&self) -> (r: bool)
        ensures
            r == self.wf(),
    {
        self.speakers != self.headphones
    }

    /// The id of the speakers, or that of the headphones.
    pub fn endpoint(&self, speakers: bool) -> (r: &String)
        ensures
            r@ == self@.endpoint(speakers),
    {
        if speakers {
            &self.speakers
        } else {
            &self.headphones
        }
    }
}

} // verus!
