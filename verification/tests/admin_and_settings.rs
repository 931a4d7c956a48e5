use github_stars_server::admin::{
    idle_workers, list_repos_query, queue_stats, repo_not_found, reprocess_outcome,
    reprocess_reset_query, reprocess_user_outcome, reset_done, DatabaseStats, FilterParams, RepoCountFields,
    ReprocessRequest,
};
use github_stars_server::cli::Cli;
use github_stars_server::health::WorkerCounts;
use github_stars_server::pool::{PoolConfig, SurrealConnectionConfig, SurrealConnectionManager};

#[test]
fn listing_limits_and_query() {
    let p = FilterParams { status: None, limit: None, offset: None };
    assert_eq!(p.effective_limit(), 100);
    assert_eq!(p.effective_offset(), 0);
    assert_eq!(
        list_repos_query(&p),
        "\n            SELECT * FROM repo_processing_status \n            ORDER BY started_at DESC\n            LIMIT 100 START 0\n            "
    );
    let p = FilterParams { status: Some("failed".to_string()), limit: Some(5000), offset: Some(20) };
    assert_eq!(p.effective_limit(), 1000);
    assert_eq!(
        list_repos_query(&p),
        format!(
            r#"
            SELECT * FROM repo_processing_status 
            WHERE status = '{}' 
            ORDER BY started_at DESC
            LIMIT {} START {}
            "#,
            "failed", 1000, 20
        )
    );
}

#[test]
fn database_statistics_from_the_answers() {
    let c = RepoCountFields {
        total_repos: Some(10),
        completed_repos: Some(4),
        failed_repos: None,
        processing_repos: Some(1),
        pending_repos: Some(5),
        rate_limited_repos: None,
        pagination_limited_repos: Some(0),
    };
    let s = DatabaseStats::from_answers(Some(c), Some(1234), None);
    assert_eq!(s.total_repos, 10);
    assert_eq!(s.failed_repos, 0);
    assert_eq!(s.total_stargazers, 1234);
    assert_eq!(s.total_github_users, 0);
    let s = DatabaseStats::from_answers(None, Some(1234), Some(7));
    assert_eq!(s.total_stargazers, 0);
    assert_eq!(s.total_github_users, 0);
}

#[test]
fn admin_answers() {
    let w = WorkerCounts { current_worker_count: 8, factory_active_workers: 3, factory_queue_depth: 2 };
    assert_eq!(idle_workers(w), 5);
    let q = queue_stats(w);
    assert_eq!((q.depth, q.active_workers, q.total_workers), (2, 3, 8));
    assert_eq!(reprocess_outcome("a/b", 1).unwrap().message, "Repository a/b queued for reprocessing");
    assert_eq!(
        reprocess_outcome("a/b", 0).unwrap_err().error,
        "Repository not found or not eligible for reprocessing"
    );
    assert_eq!(reset_done("a/b").message, "Repository a/b processing status reset");
    assert_eq!(repo_not_found("a/b").error, "Repository a/b not found");
    assert_eq!(
        reprocess_user_outcome("42", true).unwrap().message,
        "All repositories for user 42 queued for reprocessing"
    );
    assert_eq!(reprocess_user_outcome("42", false).unwrap_err().error, "No GitHub account found for user 42");
    assert!(ReprocessRequest { force: Some(true) }.is_forced());
    assert!(!ReprocessRequest { force: None }.is_forced());
}

fn cli(local: bool) -> Cli {
    Cli {
        local,
        db_url: "ws://db.example:9000".to_string(),
        db_user: "root".to_string(),
        db_pass: "pw".to_string(),
        db_namespace: "gitstars".to_string(),
        db_database: "stars".to_string(),
        db_pool_max_size: 12,
        db_pool_min_idle: 3,
        db_connection_timeout: 9,
    }
}

#[test]
fn settings_from_the_command_line() {
    let mut c = cli(true);
    c.apply_local_mode();
    assert_eq!(c.db_url, "ws://localhost:8000");
    let mut c = cli(false);
    c.apply_local_mode();
    assert_eq!(c.db_url, "ws://db.example:9000");
    let p = PoolConfig::from_cli(&c);
    assert_eq!(p, PoolConfig { max_size: 12, min_idle: Some(3), max_lifetime_secs: Some(3600), idle_timeout_secs: Some(600), connection_timeout_secs: 9 });
    assert_eq!(PoolConfig::default().max_size, 10);
    assert_eq!(PoolConfig::default().recycle_timeout_secs(), Some(600));
    let conn = SurrealConnectionConfig::from_cli(&c);
    assert_eq!(conn.namespace, "gitstars");
    let m = SurrealConnectionManager::new(conn.clone());
    assert_eq!(m.config().url, "ws://db.example:9000");
}

#[test]
fn reprocess_resets_all_progress_only_when_forced() {
    let forced = reprocess_reset_query(true);
    assert!(forced.contains("last_page_processed = 0"));
    assert!(forced.contains("processed_stargazers = 0"));
    assert!(!forced.contains("AND status IN"));
    let ordinary = reprocess_reset_query(false);
    assert!(!ordinary.contains("last_page_processed"));
    assert!(ordinary.contains("AND status IN ('failed', 'completed', 'pagination_limited')"));
}
