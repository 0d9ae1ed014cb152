use file_indexer::config::{Config, MeiliSearchConfig, ProjectConfig};

fn sample_meili() -> MeiliSearchConfig {
    MeiliSearchConfig {
        meilisearch_url: "http://localhost:7700".to_string(),
        meilisearch_api_key: "0123456789abcdef".to_string(),
        meilisearch_index_name: "files".to_string(),
        meilisearch_bin_path: "/usr/bin/meilisearch".to_string(),
        meilisearch_db_path: "/var/lib/meili".to_string(),
        meilisearch_telemetry: true,
    }
}

fn sample_project() -> ProjectConfig {
    ProjectConfig {
        root: "/root_dir".to_string(),
        crontab: "0 0 * * * *".to_string(),
        max_depth: 0,
        custom_ignore_rule_file: None,
        index_hidden: true,
        follow_symlinks: false,
        id: "project1".to_string(),
    }
}

#[test]
fn test_meili_describe_masks_key() {
    let text = sample_meili().describe();
    assert_eq!(
        text,
        "Meilisearch Configuration:\n  URL: http://localhost:7700\n  API Key: **hidden**\n  Binary Path: /usr/bin/meilisearch\n  Database Path: /var/lib/meili\n  Telemetry: true\n"
    );
    assert!(!text.contains("0123456789abcdef"));
}

#[test]
fn test_project_describe() {
    let text = sample_project().describe();
    assert_eq!(
        text,
        "Project Configuration:\n  Root Directory: \"/root_dir\"\n  Schedule: 0 0 * * * *\n  Max Depth(0 for infinitive depth): 0\n  Extra Ignore-rules File: none\n  Index Hidden File/Folders: true\n  Follow Symlinks: false"
    );

    let mut project = sample_project();
    project.max_depth = 12;
    project.custom_ignore_rule_file = Some(".myignore".to_string());
    let text = project.describe();
    assert!(text.contains("Max Depth(0 for infinitive depth): 12\n"));
    assert!(text.contains("Extra Ignore-rules File: .myignore\n"));
}

#[test]
fn test_config_describe_lists_projects() {
    let config = Config { meilisearch: sample_meili(), projects: vec![sample_project()] };
    let text = config.describe();
    let expected = format!("{}\nProjects:\n{}\n", sample_meili().describe(), sample_project().describe());
    assert_eq!(text, expected);
}

#[test]
fn test_config_describe_without_projects() {
    let config = Config { meilisearch: sample_meili(), projects: Vec::new() };
    let text = config.describe();
    let expected = format!("{}\nProjects:\nNo Projects\n\n", sample_meili().describe());
    assert_eq!(text, expected);
}
