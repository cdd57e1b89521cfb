use parallel_sh::settings::clamp_workers;
use parallel_sh::settings::effective_workers;
use parallel_sh::settings::select_source;
use parallel_sh::settings::JobSource;
use parallel_sh::settings::log_level;
use parallel_sh::settings::LogLevel;
use parallel_sh::settings::Settings;
use parallel_sh::settings::MAX_WORKERS;

#[test]
fn requested_worker_count_is_clamped() {
    assert_eq!(effective_workers(Some(8)), 8);
    assert_eq!(effective_workers(Some(1)), 1);
    assert_eq!(effective_workers(Some(0)), 1);
    assert_eq!(effective_workers(Some(MAX_WORKERS)), MAX_WORKERS);
    assert_eq!(effective_workers(Some(MAX_WORKERS + 1)), MAX_WORKERS);
}

#[test]
fn clamp_forces_any_count_into_range() {
    assert_eq!(clamp_workers(0), 1);
    assert_eq!(clamp_workers(1), 1);
    assert_eq!(clamp_workers(7), 7);
    assert_eq!(clamp_workers(MAX_WORKERS), MAX_WORKERS);
    assert_eq!(clamp_workers(MAX_WORKERS + 1), MAX_WORKERS);
    assert_eq!(clamp_workers(usize::MAX), MAX_WORKERS);
}

#[test]
fn default_worker_count_comes_from_the_host_within_bounds() {
    let n = effective_workers(None);
    assert!(n >= 1);
    assert!(n <= MAX_WORKERS);
}

#[test]
fn log_level_follows_verbosity() {
    assert_eq!(log_level(true, 5), LogLevel::Error);
    assert_eq!(log_level(false, 0), LogLevel::Warn);
    assert_eq!(log_level(false, 1), LogLevel::Info);
    assert_eq!(log_level(false, 2), LogLevel::Debug);
    assert_eq!(log_level(false, 3), LogLevel::Trace);
    assert_eq!(log_level(false, 9), LogLevel::Trace);
}

#[test]
fn cli_jobs_take_precedence_over_file_and_stdin() {
    assert_eq!(select_source(true, true), JobSource::CliArgs);
    assert_eq!(select_source(true, false), JobSource::CliArgs);
    assert_eq!(select_source(false, true), JobSource::JobFile);
    assert_eq!(select_source(false, false), JobSource::StandardInput);
}

#[test]
fn settings_carry_the_run_flags() {
    let s = Settings::new(Some(2), true, false, Some("sh".to_string()));
    assert_eq!(s.workers, 2);
    assert!(s.dry_run);
    assert!(!s.halt_on_error);
    assert_eq!(s.shell, Some("sh".to_string()));
}
