pub mod github_factory;
pub mod github_worker;
pub mod processing_supervisor;
pub mod repo_run;
