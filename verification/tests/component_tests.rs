use file_indexer::batch::{Batcher, MEILISEARCH_BATCH_ENTRIES_LIMIT};
use file_indexer::config::{
    default_custom_ignore_rule_file, default_follow_symlinks, default_index_hidden,
    default_maxdepth, default_meilisearch_bin_path, default_meilisearch_db_path,
    default_meilisearch_telemetry,
};
use file_indexer::decimal::{i64_to_dec, u64_to_dec};
use file_indexer::file_index::{FileSystemEntry, IndexEntryType};
use file_indexer::launch::{plan_meilisearch_launch, poll_startup, strip_url_scheme, LaunchError, StartupPoll};
use file_indexer::config::MeiliSearchConfig;
use file_indexer::provision::{
    attributes_missing, contains_string, filterable_attributes, non_separator_tokens,
    sortable_attributes,
};
use file_indexer::proxy::{meilisearch_route_rule, rewrite_proxy_target};
use file_indexer::scheduler::{RunGuard, TriggerAction};

fn small_entry(n: u32) -> FileSystemEntry {
    let path = format!("/root_dir/file{}.txt", n);
    FileSystemEntry {
        uuid: uuid::Uuid::new_v5(&uuid::Uuid::NAMESPACE_URL, path.as_bytes()).to_string(),
        name: format!("file{}.txt", n),
        path,
        entry_type: IndexEntryType::File,
        size: Some(1),
        modified_date: None,
        is_hidden: false,
        preview: None,
        project_id: "project1".to_string(),
        entry_last_updated: 0,
    }
}

#[test]
fn test_batcher_emits_full_batches_in_order() {
    let mut batcher = Batcher::new();
    let mut emitted: Vec<Vec<FileSystemEntry>> = Vec::new();
    for n in 0..(MEILISEARCH_BATCH_ENTRIES_LIMIT as u32 + 3) {
        if let Some(full) = batcher.push(small_entry(n)) {
            emitted.push(full);
        }
    }
    assert_eq!(emitted.len(), 1);
    assert_eq!(emitted[0].len(), MEILISEARCH_BATCH_ENTRIES_LIMIT);
    assert_eq!(emitted[0][0].name, "file0.txt");
    assert_eq!(
        emitted[0][MEILISEARCH_BATCH_ENTRIES_LIMIT - 1].name,
        format!("file{}.txt", MEILISEARCH_BATCH_ENTRIES_LIMIT - 1)
    );
    let rest = batcher.finish();
    assert_eq!(rest.len(), 3);
    assert_eq!(rest[0].name, format!("file{}.txt", MEILISEARCH_BATCH_ENTRIES_LIMIT));
}

#[test]
fn test_run_guard_mutual_exclusion() {
    let mut guard = RunGuard::new();
    assert!(!guard.running);

    // the first trigger starts a run
    assert_eq!(guard.on_trigger(), TriggerAction::StartRun);
    assert!(guard.running);

    // a trigger firing while the run is in flight is skipped outright
    assert_eq!(guard.on_trigger(), TriggerAction::SkipRun);
    assert_eq!(guard.on_trigger(), TriggerAction::SkipRun);
    assert!(guard.running);

    // once the run ends the next trigger proceeds again
    guard.finish_run();
    assert!(!guard.running);
    assert_eq!(guard.on_trigger(), TriggerAction::StartRun);
}

#[test]
fn test_provisioning_attribute_sets() {
    let filterable = filterable_attributes();
    assert_eq!(
        filterable,
        vec![
            "path",
            "name",
            "entry_type",
            "size",
            "modified_date",
            "is_hidden",
            "preview",
            "project_id",
            "entry_last_updated",
        ]
    );
    let sortable = sortable_attributes();
    assert_eq!(sortable, vec!["path", "name", "size", "modified_date"]);
    let tokens = non_separator_tokens();
    assert_eq!(tokens.len(), 17);
    assert!(tokens.iter().any(|t| t == "\\"));
    assert!(tokens.iter().any(|t| t == " "));
}

#[test]
fn test_attributes_missing() {
    let required = filterable_attributes();
    let mut existing = filterable_attributes();
    assert!(!attributes_missing(&existing, &required));

    existing.pop();
    assert!(attributes_missing(&existing, &required));

    let empty: Vec<String> = Vec::new();
    assert!(attributes_missing(&empty, &required));
    assert!(!attributes_missing(&required, &empty));

    assert!(contains_string(&required, &"size".to_string()));
    assert!(!contains_string(&required, &"sizes".to_string()));
}

#[test]
fn test_decimal_rendering() {
    assert_eq!(u64_to_dec(0), "0");
    assert_eq!(u64_to_dec(7), "7");
    assert_eq!(u64_to_dec(10), "10");
    assert_eq!(u64_to_dec(12345), "12345");
    assert_eq!(u64_to_dec(u64::MAX), "18446744073709551615");
    assert_eq!(i64_to_dec(0), "0");
    assert_eq!(i64_to_dec(-1), "-1");
    assert_eq!(i64_to_dec(1700000000), "1700000000");
    assert_eq!(i64_to_dec(i64::MAX), "9223372036854775807");
    assert_eq!(i64_to_dec(i64::MIN), "-9223372036854775808");
}

#[test]
fn test_strip_url_scheme() {
    assert_eq!(strip_url_scheme("http://localhost:7700"), "localhost:7700");
    assert_eq!(strip_url_scheme("https://search.example:443"), "search.example:443");
    assert_eq!(strip_url_scheme("localhost:7700"), "localhost:7700");
    assert_eq!(strip_url_scheme(""), "");
}

fn launch_config() -> MeiliSearchConfig {
    MeiliSearchConfig {
        meilisearch_url: "http://localhost:7700".to_string(),
        meilisearch_api_key: "0123456789abcdef".to_string(),
        meilisearch_index_name: "files".to_string(),
        meilisearch_bin_path: "/usr/bin/meilisearch".to_string(),
        meilisearch_db_path: "".to_string(),
        meilisearch_telemetry: true,
    }
}

#[test]
fn test_plan_meilisearch_launch() {
    let mut cfg = launch_config();
    cfg.meilisearch_bin_path = "".to_string();
    assert!(matches!(plan_meilisearch_launch(&cfg), Err(LaunchError::EmptyBinPath)));

    let mut cfg = launch_config();
    cfg.meilisearch_api_key = "short-key".to_string();
    assert!(matches!(plan_meilisearch_launch(&cfg), Err(LaunchError::ShortApiKey)));

    let cfg = launch_config();
    let plan = plan_meilisearch_launch(&cfg).unwrap();
    assert_eq!(plan.bin_path, "/usr/bin/meilisearch");
    assert_eq!(plan.http_addr, "localhost:7700");
    assert_eq!(plan.master_key, "0123456789abcdef");
    assert!(plan.db_path.is_none());
    assert!(!plan.no_analytics);

    let mut cfg = launch_config();
    cfg.meilisearch_db_path = "/var/lib/meili".to_string();
    cfg.meilisearch_telemetry = false;
    let plan = plan_meilisearch_launch(&cfg).unwrap();
    assert_eq!(plan.db_path.as_deref(), Some("/var/lib/meili"));
    assert!(plan.no_analytics);
}

#[test]
fn test_poll_startup() {
    assert_eq!(poll_startup(true, 0, 30), StartupPoll::Ready);
    assert_eq!(poll_startup(true, 30, 30), StartupPoll::Ready);
    assert_eq!(poll_startup(false, 0, 30), StartupPoll::Retry);
    assert_eq!(poll_startup(false, 29, 30), StartupPoll::Retry);
    assert_eq!(poll_startup(false, 30, 30), StartupPoll::GiveUp);
}

#[test]
fn test_proxy_rewrite() {
    assert_eq!(
        rewrite_proxy_target("http://localhost:7700", "/meilisearch/indexes/files/search?q=a"),
        "http://localhost:7700/indexes/files/search?q=a"
    );
    assert_eq!(
        rewrite_proxy_target("http://localhost:7700", "/other/path"),
        "http://localhost:7700/other/path"
    );
    assert_eq!(meilisearch_route_rule(), "/meilisearch/{*wildcard}");
}

#[test]
fn test_config_defaults() {
    assert_eq!(default_meilisearch_bin_path(), "");
    assert_eq!(default_meilisearch_db_path(), "");
    assert!(default_meilisearch_telemetry());
    assert_eq!(default_maxdepth(), 0);
    assert!(default_custom_ignore_rule_file().is_none());
    assert!(!default_index_hidden());
    assert!(!default_follow_symlinks());
}
