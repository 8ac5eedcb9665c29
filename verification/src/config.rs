//! The settings: which batteries to watch, how often, the thresholds of the
//! bands and the handler commands.

use crate::band::{Band, Thresholds};
use crate::decimal::{parse_u64, parse_u8, parse_unsigned};
use vstd::prelude::*;
use vstd::string::*;

verus! {

/// The settings as the user keeps them.
#[derive(Clone, Debug, PartialEq, Eq)]
pub struct Config {
    pub batteries: Vec<String>,
    pub read_delay_ms: u64,
    pub good_capacity: u8,
    pub okay_capacity: u8,
    pub bad_capacity: u8,
    pub critical_capacity: u8,
    pub good_capacity_handler: Option<String>,
    pub okay_capacity_handler: Option<String>,
    pub bad_capacity_handler: Option<String>,
    pub critical_capacity_handler: Option<String>,
}

/// Settings with their texts as character sequences.
pub struct ConfigView {
    pub batteries: Seq<Seq<char>>,
    pub read_delay_ms: u64,
    pub good_capacity: u8,
    pub okay_capacity: u8,
    pub bad_capacity: u8,
    pub critical_capacity: u8,
    pub good_capacity_handler: Option<Seq<char>>,
    pub okay_capacity_handler: Option<Seq<char>>,
    pub bad_capacity_handler: Option<Seq<char>>,
    pub critical_capacity_handler: Option<Seq<char>>,
}

/// The name of one setting.
#[derive(Clone, Copy, Debug, PartialEq, Eq, Structural)]
pub enum ConfigKey {
    Batteries,
    ReadDelay,
    GoodCapacity,
    OkayCapacity,
    BadCapacity,
    CriticalCapacity,
    GoodCapacityHandler,
    OkayCapacityHandler,
    BadCapacityHandler,
    CriticalCapacityHandler,
}

/// The value of one setting.
#[derive(Clone, Debug, PartialEq, Eq)]
pub enum ConfigValue {
    Batteries(Vec<String>),
    ReadDelay(u64),
    Capacity(u8),
    Handler(Option<String>),
}

/// A `ConfigValue` with its texts as character sequences.
pub enum ConfigValueView {
    Batteries(Seq<Seq<char>>),
    ReadDelay(u64),
    Capacity(u8),
    Handler(Option<Seq<char>>),
}

/// Why a setting could not be changed.
#[derive(Clone, Copy, Debug, PartialEq, Eq, Structural)]
pub enum SetError {
    /// The list of batteries cannot be set from a single text.
    ListUnsupported,
    /// The text is not an unsigned decimal number of 64 bits.
    NotU64,
    /// The text is not an unsigned decimal number of 8 bits.
    NotU8,
}

/// The settings of a new installation.
pub open spec fn default_settings() -> ConfigView {
    ConfigView {
        batteries: Seq::empty(),
        read_delay_ms: 180000,
        good_capacity: 75,
        okay_capacity: 50,
        bad_capacity: 20,
        critical_capacity: 5,
        good_capacity_handler: None,
        okay_capacity_handler: None,
        bad_capacity_handler: None,
        critical_capacity_handler: None,
    }
}

impl ConfigView {
    /// The four thresholds.
    pub open spec fn thresholds(self) -> Thresholds {
        Thresholds {
            good: self.good_capacity,
            okay: self.okay_capacity,
            bad: self.bad_capacity,
            critical: self.critical_capacity,
        }
    }

    /// The command to run when a battery enters `band`, if one is set.
    pub open spec fn handler(self, band: Band) -> Option<Seq<char>> {
        match band {
            Band::Good => self.good_capacity_handler,
            Band::Okay => self.okay_capacity_handler,
            Band::Bad => self.bad_capacity_handler,
            Band::Critical => self.critical_capacity_handler,
        }
    }

    /// The value of the setting called `key`.
    pub open spec fn setting(self, key: ConfigKey) -> ConfigValueView {
        match key {
            ConfigKey::Batteries => ConfigValueView::Batteries(self.batteries),
            ConfigKey::ReadDelay => ConfigValueView::ReadDelay(self.read_delay_ms),
            ConfigKey::GoodCapacity => ConfigValueView::Capacity(self.good_capacity),
            ConfigKey::OkayCapacity => ConfigValueView::Capacity(self.okay_capacity),
            ConfigKey::BadCapacity => ConfigValueView::Capacity(self.bad_capacity),
            ConfigKey::CriticalCapacity => ConfigValueView::Capacity(self.critical_capacity),
            ConfigKey::GoodCapacityHandler => ConfigValueView::Handler(self.good_capacity_handler),
            ConfigKey::OkayCapacityHandler => ConfigValueView::Handler(self.okay_capacity_handler),
            ConfigKey::BadCapacityHandler => ConfigValueView::Handler(self.bad_capacity_handler),
            ConfigKey::CriticalCapacityHandler => ConfigValueView::Handler(
                self.critical_capacity_handler,
            ),
        }
    }

    /// The settings with a delay read from `text`.
    pub open spec fn with_delay(self, text: Seq<char>) -> Result<ConfigView, SetError> {
        match parse_unsigned(text, u64::MAX as nat) {
            Some(n) => Ok(ConfigView { read_delay_ms: n as u64, ..self }),
            None => Err(SetError::NotU64),
        }
    }

    /// The settings with the threshold of `band` read from `text`.
    pub open spec fn with_capacity(self, band: Band, text: Seq<char>) -> Result<
        ConfigView,
        SetError,
    > {
        match parse_unsigned(text, u8::MAX as nat) {
            Some(n) => Ok(
                match band {
                    Band::Good => ConfigView { good_capacity: n as u8, ..self },
                    Band::Okay => ConfigView { okay_capacity: n as u8, ..self },
                    Band::Bad => ConfigView { bad_capacity: n as u8, ..self },
                    Band::Critical => ConfigView { critical_capacity: n as u8, ..self },
                },
            ),
            None => Err(SetError::NotU8),
        }
    }

    /// The settings with `text` as the handler command of `band`.
    pub open spec fn with_handler(self, band: Band, text: Seq<char>) -> ConfigView {
        match band {
            Band::Good => ConfigView { good_capacity_handler: Some(text), ..self },
            Band::Okay => ConfigView { okay_capacity_handler: Some(text), ..self },
            Band::Bad => ConfigView { bad_capacity_handler: Some(text), ..self },
            Band::Critical => ConfigView { critical_capacity_handler: Some(text), ..self },
        }
    }

    /// The settings after the one called `key` was set from `text`, or why
    /// it cannot be set: the list of batteries never can, a delay must be a
    /// decimal number of 64 bits, a threshold one of 8 bits, and a handler
    /// command is taken as it is.
    pub open spec fn with_setting(self, key: ConfigKey, text: Seq<char>) -> Result<
        ConfigView,
        SetError,
    > {
        match key {
            ConfigKey::Batteries => Err(SetError::ListUnsupported),
            ConfigKey::ReadDelay => self.with_delay(text),
            ConfigKey::GoodCapacity => self.with_capacity(Band::Good, text),
            ConfigKey::OkayCapacity => self.with_capacity(Band::Okay, text),
            ConfigKey::BadCapacity => self.with_capacity(Band::Bad, text),
            ConfigKey::CriticalCapacity => self.with_capacity(Band::Critical, text),
            ConfigKey::GoodCapacityHandler => Ok(self.with_handler(Band::Good, text)),
            ConfigKey::OkayCapacityHandler => Ok(self.with_handler(Band::Okay, text)),
            ConfigKey::BadCapacityHandler => Ok(self.with_handler(Band::Bad, text)),
            ConfigKey::CriticalCapacityHandler => Ok(self.with_handler(Band::Critical, text)),
        }
    }
}

impl View for Config {
    type V = ConfigView;

    open spec fn view(&self) -> ConfigView {
        ConfigView {
            batteries: self.batteries.deep_view(),
            read_delay_ms: self.read_delay_ms,
            good_capacity: self.good_capacity,
            okay_capacity: self.okay_capacity,
            bad_capacity: self.bad_capacity,
            critical_capacity: self.critical_capacity,
            good_capacity_handler: self.good_capacity_handler.deep_view(),
            okay_capacity_handler: self.okay_capacity_handler.deep_view(),
            bad_capacity_handler: self.bad_capacity_handler.deep_view(),
            critical_capacity_handler: self.critical_capacity_handler.deep_view(),
        }
    }
}

impl View for ConfigValue {
    type V = ConfigValueView;

    open spec fn view(&self) -> ConfigValueView {
        match self {
            ConfigValue::Batteries(names) => ConfigValueView::Batteries(names.deep_view()),
            ConfigValue::ReadDelay(millis) => ConfigValueView::ReadDelay(*millis),
            ConfigValue::Capacity(percent) => ConfigValueView::Capacity(*percent),
            ConfigValue::Handler(command) => ConfigValueView::Handler(command.deep_view()),
        }
    }
}

/// A copy of a list of names.
pub fn copy_names(names: &Vec<String>) -> (copy: Vec<String>)
    ensures
        copy.deep_view() == names.deep_view(),
{
    let mut copy: Vec<String> = Vec::new();
    let mut i: usize = 0;
    while i < names.len()
        invariant
            i <= names@.len(),
            copy@.len() == i,
            forall|j: int| 0 <= j < i ==> (#[trigger] copy@[j])@ == names@[j]@,
        decreases names@.len() - i,
    {
        copy.push(names[i].clone());
        i = i + 1;
    }
    assert(copy.deep_view() =~= names.deep_view());
    copy
}

/// A copy of a handler command that may be absent.
pub fn copy_command(command: &Option<String>) -> (copy: Option<String>)
    ensures
        copy.deep_view() == command.deep_view(),
{
    match command {
        Some(text) => Some(text.clone()),
        None => None,
    }
}

impl SetError {
    /// The text that tells the user what is wrong.
    pub open spec fn message_text(self) -> Seq<char> {
        match self {
            SetError::ListUnsupported =>
            "Setting array properties via the CLI isn't supported yet. Edit the configuration file at '~/.config/batteryctl/ instead.'"@,
            SetError::NotU64 => "The value has to be a valid unsigned 64-bit integer."@,
            SetError::NotU8 => "The value has to be a valid unsigned 8-bit integer."@,
        }
    }

    /// The text that tells the user what is wrong.
    pub fn message(&self) -> (text: String)
        ensures
            text@ == self.message_text(),
    {
        match self {
            SetError::ListUnsupported => String::from_str(
                "Setting array properties via the CLI isn't supported yet. Edit the configuration file at '~/.config/batteryctl/ instead.'",
            ),
            SetError::NotU64 => String::from_str(
                "The value has to be a valid unsigned 64-bit integer.",
            ),
            SetError::NotU8 => String::from_str(
                "The value has to be a valid unsigned 8-bit integer.",
            ),
        }
    }
}

impl Config {
    /// The settings of a new installation: no batteries, a poll every three
    /// minutes, thresholds 75, 50, 20 and 5, and no handlers.
    pub fn new() -> (config: Config)
        ensures
            config@ == default_settings(),
    {
        let config = Config {
            batteries: Vec::new(),
            read_delay_ms: 180000,
            good_capacity: 75,
            okay_capacity: 50,
            bad_capacity: 20,
            critical_capacity: 5,
            good_capacity_handler: None,
            okay_capacity_handler: None,
            bad_capacity_handler: None,
            critical_capacity_handler: None,
        };
        assert(config.batteries.deep_view() =~= Seq::<Seq<char>>::empty());
        config
    }

    /// The four thresholds.
    pub fn thresholds(&self) -> (t: Thresholds)
        ensures
            t == self@.thresholds(),
    {
        Thresholds {
            good: self.good_capacity,
            okay: self.okay_capacity,
            bad: self.bad_capacity,
            critical: self.critical_capacity,
        }
    }

    /// The value of the setting called `key`.
    pub fn get(&self, key: ConfigKey) -> (value: ConfigValue)
        ensures
            value@ == self@.setting(key),
    {
        match key {
            ConfigKey::Batteries => ConfigValue::Batteries(copy_names(&self.batteries)),
            ConfigKey::ReadDelay => ConfigValue::ReadDelay(self.read_delay_ms),
            ConfigKey::GoodCapacity => ConfigValue::Capacity(self.good_capacity),
            ConfigKey::OkayCapacity => ConfigValue::Capacity(self.okay_capacity),
            ConfigKey::BadCapacity => ConfigValue::Capacity(self.bad_capacity),
            ConfigKey::CriticalCapacity => ConfigValue::Capacity(self.critical_capacity),
            ConfigKey::GoodCapacityHandler => ConfigValue::Handler(
                copy_command(&self.good_capacity_handler),
            ),
            ConfigKey::OkayCapacityHandler => ConfigValue::Handler(
                copy_command(&self.okay_capacity_handler),
            ),
            ConfigKey::BadCapacityHandler => ConfigValue::Handler(
                copy_command(&self.bad_capacity_handler),
            ),
            ConfigKey::CriticalCapacityHandler => ConfigValue::Handler(
                copy_command(&self.critical_capacity_handler),
            ),
        }
    }

    /// Sets the poll delay from `text`.
    fn set_delay(&mut self, text: &str) -> (r: Result<(), SetError>)
        ensures
            match old(self)@.with_delay(text@) {
                Ok(changed) => r is Ok && final(self)@ == changed,
                Err(e) => r == Err::<(), SetError>(e) && final(self)@ == old(self)@,
            },
    {
        match parse_u64(text) {
            Some(millis) => {
                self.read_delay_ms = millis;
                Ok(())
            },
            None => Err(SetError::NotU64),
        }
    }

    /// Sets the threshold of `band` from `text`.
    fn set_capacity(&mut self, band: Band, text: &str) -> (r: Result<(), SetError>)
        ensures
            match old(self)@.with_capacity(band, text@) {
                Ok(changed) => r is Ok && final(self)@ == changed,
                Err(e) => r == Err::<(), SetError>(e) && final(self)@ == old(self)@,
            },
    {
        match parse_u8(text) {
            Some(percent) => {
                match band {
                    Band::Good => {
                        self.good_capacity = percent;
                    },
                    Band::Okay => {
                        self.okay_capacity = percent;
                    },
                    Band::Bad => {
                        self.bad_capacity = percent;
                    },
                    Band::Critical => {
                        self.critical_capacity = percent;
                    },
                }
                Ok(())
            },
            None => Err(SetError::NotU8),
        }
    }

    /// Sets the handler command of `band` to `text`.
    fn set_handler(&mut self, band: Band, text: &str)
        ensures
            final(self)@ == old(self)@.with_handler(band, text@),
    {
        let command = Some(String::from_str(text));
        match band {
            Band::Good => {
                self.good_capacity_handler = command;
            },
            Band::Okay => {
                self.okay_capacity_handler = command;
            },
            Band::Bad => {
                self.bad_capacity_handler = command;
            },
            Band::Critical => {
                self.critical_capacity_handler = command;
            },
        }
    }

    /// Sets the setting called `key` from `text`. On an error nothing is
    /// changed.
    pub fn set(&mut self, key: ConfigKey, text: &str) -> (r: Result<(), SetError>)
        ensures
            match old(self)@.with_setting(key, text@) {
                Ok(changed) => r is Ok && final(self)@ == changed,
                Err(e) => r == Err::<(), SetError>(e) && final(self)@ == old(self)@,
            },
    {
        match key {
            ConfigKey::Batteries => Err(SetError::ListUnsupported),
            ConfigKey::ReadDelay => self.set_delay(text),
            ConfigKey::GoodCapacity => self.set_capacity(Band::Good, text),
            ConfigKey::OkayCapacity => self.set_capacity(Band::Okay, text),
            ConfigKey::BadCapacity => self.set_capacity(Band::Bad, text),
            ConfigKey::CriticalCapacity => self.set_capacity(Band::Critical, text),
            ConfigKey::GoodCapacityHandler => {
                self.set_handler(Band::Good, text);
                Ok(())
            },
            ConfigKey::OkayCapacityHandler => {
                self.set_handler(Band::Okay, text);
                Ok(())
            },
            ConfigKey::BadCapacityHandler => {
                self.set_handler(Band::Bad, text);
                Ok(())
            },
            ConfigKey::CriticalCapacityHandler => {
                self.set_handler(Band::Critical, text);
                Ok(())
            },
        }
    }
}

} // verus!
