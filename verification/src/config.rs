//! What a search looks for and how often it runs.

use vstd::prelude::*;

verus! {

/// The hours between two runs where nothing else is configured.
pub const DEFAULT_INTERVAL_HOURS: u64 = 4;

/// The lowest salary floor that the site can filter by, in dollars a year.
pub const LOWEST_SALARY_FLOOR: u32 = 40000;

/// The highest salary floor that the site can filter by, in dollars a year.
pub const HIGHEST_SALARY_FLOOR: u32 = 200000;

/// The keywords of the search where nothing is configured.
pub const DEFAULT_KEYWORDS: &'static str = "rust developer";

/// The place of the search where nothing is configured.
pub const DEFAULT_LOCATION: &'static str = "San Francisco Bay Area";

/// What to search for.
#[derive(Debug)]
pub struct SearchConfig {
    pub keywords: String,
    pub location: String,
    /// Only postings for remote work.
    pub remote: bool,
    /// The least salary in dollars a year, between 40000 and 200000.
    pub salary_min: Option<u32>,
}

/// How often to search.
#[derive(Debug)]
pub struct ScheduleConfig {
    pub interval_hours: u64,
}

/// The configuration of the service.
#[derive(Debug)]
pub struct Config {
    pub search: SearchConfig,
    pub schedule: ScheduleConfig,
}

/// A configuration as plain values.
pub struct ConfigView {
    pub keywords: Seq<char>,
    pub location: Seq<char>,
    pub remote: bool,
    pub salary_min: Option<u32>,
    pub interval_hours: u64,
}

impl View for Config {
    type V = ConfigView;

    open spec fn view(&self) -> ConfigView {
        ConfigView {
            keywords: self.search.keywords@,
            location: self.search.location@,
            remote: self.search.remote,
            salary_min: self.search.salary_min,
            interval_hours: self.schedule.interval_hours,
        }
    }
}

/// The salary floor that a configured value stands for: the value itself where
/// it lies between 40000 and 200000, and none for any other value.
pub open spec fn salary_floor(salary_min: Option<u32>) -> Option<u32> {
    match salary_min {
        Some(value) => if LOWEST_SALARY_FLOOR <= value <= HIGHEST_SALARY_FLOOR {
            Some(value)
        } else {
            None
        },
        None => None,
    }
}

/// The configuration that stands in for a missing one.
pub open spec fn default_config() -> ConfigView {
    ConfigView {
        keywords: DEFAULT_KEYWORDS@,
        location: DEFAULT_LOCATION@,
        remote: false,
        salary_min: None,
        interval_hours: DEFAULT_INTERVAL_HOURS,
    }
}

/// The configuration to work with, given the stored one: the stored one with a
/// salary floor outside the range taken as unset, or the default where none is
/// stored.
pub open spec fn effective_config(stored: Option<Config>) -> ConfigView {
    match stored {
        Some(found) => ConfigView { salary_min: salary_floor(found@.salary_min), ..found@ },
        None => default_config(),
    }
}

/// The salary floor that a configured value stands for.
pub fn checked_salary_min(salary_min: Option<u32>) -> (r: Option<u32>)
    ensures
        r == salary_floor(salary_min),
{
    match salary_min {
        Some(value) => if LOWEST_SALARY_FLOOR <= value && value <= HIGHEST_SALARY_FLOOR {
            Some(value)
        } else {
            None
        },
        None => None,
    }
}

/// The hours between two runs where nothing else is configured.
pub fn default_interval_hours() -> (hours: u64)
    ensures
        hours == DEFAULT_INTERVAL_HOURS,
{
    DEFAULT_INTERVAL_HOURS
}

impl Default for ScheduleConfig {
    fn default() -> (schedule: ScheduleConfig)
        ensures
            schedule.interval_hours == DEFAULT_INTERVAL_HOURS,
    {
        ScheduleConfig { interval_hours: default_interval_hours() }
    }
}

impl Clone for Config {
    fn clone(&self) -> (copy: Config)
        ensures
            copy@ == self@,
    {
        Config {
            search: SearchConfig {
                keywords: self.search.keywords.clone(),
                location: self.search.location.clone(),
                remote: self.search.remote,
                salary_min: self.search.salary_min,
            },
            schedule: ScheduleConfig { interval_hours: self.schedule.interval_hours },
        }
    }
}

impl Config {
    /// The configuration to work with: the stored one, with a salary floor
    /// outside the range taken as unset, or the default where none is stored.
    pub fn load_or_default(stored: Option<Config>) -> (config: Config)
        ensures
            config@ == effective_config(stored),
    {
        match stored {
            Some(found) => Config {
                search: SearchConfig {
                    keywords: found.search.keywords,
                    location: found.search.location,
                    remote: found.search.remote,
                    salary_min: checked_salary_min(found.search.salary_min),
                },
                schedule: found.schedule,
            },
            None => Config {
                search: SearchConfig {
                    keywords: DEFAULT_KEYWORDS.to_owned(),
                    location: DEFAULT_LOCATION.to_owned(),
                    remote: false,
                    salary_min: None,
                },
                schedule: ScheduleConfig::default(),
            },
        }
    }
}

} // verus!
