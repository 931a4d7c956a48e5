use github_stars_server::actors::github_factory::{
    initial_worker_count, jobs_for_account, GitHubFactoryConfig,
};
use github_stars_server::actors::github_worker::GitHubJobPayload;
use github_stars_server::actors::processing_supervisor::{
    ExistingAccountsScan, ScalingPlan, SupervisorCounters,
};
use github_stars_server::models::{RecordRef, Repo, RepoOwner};

fn config(initial: usize, max: usize) -> GitHubFactoryConfig {
    GitHubFactoryConfig { num_initial_workers: initial, max_workers: max, queue_capacity: 100, dead_mans_switch_timeout_seconds: 60 }
}

#[test]
fn factory_configurations() {
    let d = GitHubFactoryConfig::default();
    assert_eq!(d.num_initial_workers, 5);
    assert_eq!(d.queue_capacity, 1000);
    assert_eq!(d.dead_mans_switch_timeout_seconds, 100000);
    let s = GitHubFactoryConfig::for_server(7);
    assert_eq!(s, GitHubFactoryConfig { num_initial_workers: 7, max_workers: 1000, queue_capacity: 1000, dead_mans_switch_timeout_seconds: 21600 });
    assert_eq!(initial_worker_count(0), 1);
    assert_eq!(initial_worker_count(1), 1);
    assert_eq!(initial_worker_count(42), 42);
}

#[test]
fn the_pool_grows_by_a_tenth_while_work_waits() {
    let mut c = SupervisorCounters::new(config(2, 10));
    assert_eq!(c.current_worker_count, 2);
    assert_eq!(c.scaling_plan(5, 2), ScalingPlan::ScaleUpIfResourcesAllow { target: 3 });
    c.apply_adjustment(9);
    assert_eq!(c.scaling_plan(5, 9), ScalingPlan::ScaleUpIfResourcesAllow { target: 10 });
    c.apply_adjustment(10);
    assert_eq!(c.scaling_plan(5, 10), ScalingPlan::Hold);
    let big = SupervisorCounters { current_worker_count: 200, ..SupervisorCounters::new(config(100, 1000)) };
    assert_eq!(big.scaling_plan(1, 200), ScalingPlan::ScaleUpIfResourcesAllow { target: 220 });
    let near = SupervisorCounters { current_worker_count: 995, ..SupervisorCounters::new(config(100, 1000)) };
    assert_eq!(near.scaling_plan(1, 0), ScalingPlan::ScaleUpIfResourcesAllow { target: 1000 });
}

#[test]
fn the_pool_shrinks_when_idle_but_not_below_its_start() {
    let c = SupervisorCounters { current_worker_count: 200, ..SupervisorCounters::new(config(100, 1000)) };
    assert_eq!(c.scaling_plan(0, 10), ScalingPlan::ScaleDown { target: 180 });
    // half or more busy: hold
    assert_eq!(c.scaling_plan(0, 100), ScalingPlan::Hold);
    let c = SupervisorCounters { current_worker_count: 105, ..SupervisorCounters::new(config(100, 1000)) };
    assert_eq!(c.scaling_plan(0, 0), ScalingPlan::ScaleDown { target: 100 });
    let c = SupervisorCounters::new(config(100, 1000));
    assert_eq!(c.scaling_plan(0, 0), ScalingPlan::Hold);
}

#[test]
fn a_new_account_may_add_one_worker() {
    let c = SupervisorCounters::new(config(2, 3));
    assert!(c.wants_queue_depth());
    assert_eq!(c.new_account_target(0), None);
    assert_eq!(c.new_account_target(4), Some(3));
    let full = SupervisorCounters { current_worker_count: 3, ..c };
    assert!(!full.wants_queue_depth());
    assert_eq!(full.new_account_target(4), None);
}

#[test]
fn submissions_are_counted_and_the_period_resets() {
    let mut c = SupervisorCounters::new(config(1, 2));
    c.record_submission();
    c.record_submission();
    assert_eq!(c.total_accounts_processed, 2);
    assert_eq!(c.last_hour_accounts_processed, 2);
    c.reset_period();
    assert_eq!(c.total_accounts_processed, 2);
    assert_eq!(c.last_hour_accounts_processed, 0);
}

#[test]
fn existing_accounts_are_read_a_hundred_at_a_time() {
    let mut s = ExistingAccountsScan::new();
    assert!(s.after_batch(100, 99));
    assert_eq!(s.offset(), 100);
    assert!(s.after_batch(3, 3));
    assert_eq!(s.offset(), 200);
    assert_eq!(s.total_submitted(), 102);
    assert!(!s.after_batch(0, 0));
    assert_eq!(s.offset(), 200);
}

#[test]
fn an_account_gives_one_job_per_starred_repository() {
    let repo = |n: &str| Repo {
        id: RecordRef::new("repo", n),
        github_id: 1,
        name: String::new(),
        full_name: n.to_string(),
        description: None,
        url: String::new(),
        stars: 0,
        language: None,
        owner: RepoOwner { login: String::new(), avatar_url: String::new() },
        is_private: false,
        created_at_ms: 0,
        updated_at_ms: 0,
    };
    let user = RecordRef::new("user", "u1");
    let jobs = jobs_for_account(&user, "tok", &vec![repo("a/b"), repo("c/d")]);
    assert_eq!(jobs.len(), 2);
    assert_eq!(jobs[1].0.user_id, user);
    assert_eq!(jobs[1].0.repo_id, RecordRef::new("repo", "c/d"));
    match &jobs[0].1 {
        GitHubJobPayload::ProcessRepo { repo_full_name, access_token } => {
            assert_eq!(repo_full_name, "a/b");
            assert_eq!(access_token, "tok");
        }
    }
}
