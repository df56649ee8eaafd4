use fresh_post::config::checked_salary_min;
use fresh_post::config::default_interval_hours;
use fresh_post::config::Config;
use fresh_post::config::ScheduleConfig;
use fresh_post::config::SearchConfig;
use fresh_post::storage::load_config_or_default;

fn text_at(table: &toml::Table, section: &str, key: &str) -> String {
    table[section][key].as_str().unwrap().to_string()
}

fn config_from(content: &str) -> Config {
    let table: toml::Table = content.parse().unwrap();
    let schedule = match table.get("schedule").and_then(|s| s.get("interval_hours")) {
        Some(hours) => ScheduleConfig { interval_hours: hours.as_integer().unwrap() as u64 },
        None => ScheduleConfig::default(),
    };
    let search = &table["search"];
    Config::load_or_default(Some(Config {
        search: SearchConfig {
            keywords: text_at(&table, "search", "keywords"),
            location: text_at(&table, "search", "location"),
            remote: search.get("remote").and_then(|r| r.as_bool()).unwrap_or(false),
            salary_min: search.get("salary_min").and_then(|s| s.as_integer()).map(|s| s as u32),
        },
        schedule,
    }))
}

#[test]
fn test_config_deserialization() {
    let toml_content = r#"
[search]
keywords = "rust developer"
location = "San Francisco Bay Area"
"#;

    let config = config_from(toml_content);
    assert_eq!(config.search.keywords, "rust developer");
    assert_eq!(config.search.location, "San Francisco Bay Area");
    assert_eq!(config.schedule.interval_hours, 4);
}

#[test]
fn test_config_deserialization_with_schedule() {
    let toml_content = r#"
[search]
keywords = "rust developer"
location = "San Francisco Bay Area"
[schedule]
interval_hours = 5
"#;

    let config = config_from(toml_content);
    assert_eq!(config.search.keywords, "rust developer");
    assert_eq!(config.search.location, "San Francisco Bay Area");
    assert_eq!(config.schedule.interval_hours, 5);
}

#[test]
fn missing_config_gives_the_default() {
    let config = Config::load_or_default(None);
    assert_eq!(config.search.keywords, "rust developer");
    assert_eq!(config.search.location, "San Francisco Bay Area");
    assert!(!config.search.remote);
    assert_eq!(config.search.salary_min, None);
    assert_eq!(config.schedule.interval_hours, 4);
    assert_eq!(default_interval_hours(), 4);
    let again = load_config_or_default(None);
    assert_eq!(again.search.keywords, "rust developer");
    assert_eq!(again.schedule.interval_hours, 4);
}

#[test]
fn stored_config_is_kept_but_for_a_salary_outside_the_range() {
    let stored = config_from(
        "[search]\nkeywords = \"go\"\nlocation = \"Berlin\"\nremote = true\nsalary_min = 30000\n[schedule]\ninterval_hours = 12\n",
    );
    assert_eq!(stored.search.keywords, "go");
    assert_eq!(stored.search.location, "Berlin");
    assert!(stored.search.remote);
    assert_eq!(stored.search.salary_min, None);
    assert_eq!(stored.schedule.interval_hours, 12);
    let kept = config_from("[search]\nkeywords = \"go\"\nlocation = \"Berlin\"\nsalary_min = 120000\n");
    assert_eq!(kept.search.salary_min, Some(120000));
    let copy = kept.clone();
    assert_eq!(copy.search.keywords, "go");
    assert_eq!(copy.search.salary_min, Some(120000));
    assert_eq!(copy.schedule.interval_hours, 4);
}

#[test]
fn salary_floor_has_a_range() {
    assert_eq!(checked_salary_min(None), None);
    assert_eq!(checked_salary_min(Some(0)), None);
    assert_eq!(checked_salary_min(Some(39999)), None);
    assert_eq!(checked_salary_min(Some(40000)), Some(40000));
    assert_eq!(checked_salary_min(Some(123456)), Some(123456));
    assert_eq!(checked_salary_min(Some(200000)), Some(200000));
    assert_eq!(checked_salary_min(Some(200001)), None);
    assert_eq!(checked_salary_min(Some(u32::MAX)), None);
}
