use renovate_gitea_sharding::job::{
    ConfigurationError, EnvVar, Environment, JobRequest, JobStatus, Secrets, Variable,
    CONFIG_FILE, CONFIG_MOUNT_PATH, RENOVATE_IMAGE,
};
use renovate_gitea_sharding::repo::Repo;

fn full_environment() -> Environment {
    Environment {
        gitea_access_token: Some("access".to_string()),
        github_com_token: Some("github".to_string()),
        renovate_secrets: Some("{\"a\":1}".to_string()),
        gitea_renovate_token: Some("renovate".to_string()),
    }
}

fn var(name: &str, value: &str) -> EnvVar {
    EnvVar { name: name.to_string(), value: value.to_string() }
}

#[test]
fn constants_name_the_image_and_the_configuration() {
    assert_eq!(RENOVATE_IMAGE, "renovate/renovate:35.19.2");
    assert_eq!(CONFIG_FILE, "config.json");
    assert_eq!(CONFIG_MOUNT_PATH, "/opts/renovate/config.json");
}

#[test]
fn variables_have_their_names() {
    assert_eq!(Variable::GiteaAccessToken.name(), "GITEA_ACCESS_TOKEN");
    assert_eq!(Variable::GithubComToken.name(), "GITHUB_COM_TOKEN");
    assert_eq!(Variable::RenovateSecrets.name(), "RENOVATE_SECRETS");
    assert_eq!(Variable::GiteaRenovateToken.name(), "GITEA_RENOVATE_TOKEN");
}

#[test]
fn complete_environment_resolves() {
    let secrets = Secrets::resolve(full_environment()).unwrap();
    assert_eq!(
        secrets,
        Secrets {
            gitea_access_token: "access".to_string(),
            github_com_token: "github".to_string(),
            renovate_secrets: "{\"a\":1}".to_string(),
            gitea_renovate_token: "renovate".to_string(),
        }
    );
}

#[test]
fn missing_access_token_is_reported() {
    let environment = Environment { gitea_access_token: None, ..full_environment() };
    assert_eq!(
        Secrets::resolve(environment),
        Err(ConfigurationError::Missing(Variable::GiteaAccessToken))
    );
}

#[test]
fn missing_github_token_is_reported() {
    let environment = Environment { github_com_token: None, ..full_environment() };
    assert_eq!(
        Secrets::resolve(environment),
        Err(ConfigurationError::Missing(Variable::GithubComToken))
    );
}

#[test]
fn missing_renovate_secrets_are_reported() {
    let environment = Environment { renovate_secrets: None, ..full_environment() };
    assert_eq!(
        Secrets::resolve(environment),
        Err(ConfigurationError::Missing(Variable::RenovateSecrets))
    );
}

#[test]
fn missing_renovate_token_is_reported() {
    let environment = Environment { gitea_renovate_token: None, ..full_environment() };
    assert_eq!(
        Secrets::resolve(environment),
        Err(ConfigurationError::Missing(Variable::GiteaRenovateToken))
    );
}

#[test]
fn first_missing_variable_wins() {
    let environment = Environment {
        gitea_access_token: Some("access".to_string()),
        github_com_token: None,
        renovate_secrets: Some("secrets".to_string()),
        gitea_renovate_token: None,
    };
    assert_eq!(
        Secrets::resolve(environment),
        Err(ConfigurationError::Missing(Variable::GithubComToken))
    );
    let nothing = Environment {
        gitea_access_token: None,
        github_com_token: None,
        renovate_secrets: None,
        gitea_renovate_token: None,
    };
    assert_eq!(
        Secrets::resolve(nothing),
        Err(ConfigurationError::Missing(Variable::GiteaAccessToken))
    );
}

#[test]
fn empty_value_counts_as_set() {
    let environment = Environment { renovate_secrets: Some(String::new()), ..full_environment() };
    let secrets = Secrets::resolve(environment).unwrap();
    assert_eq!(secrets.renovate_secrets, "");
}

#[test]
fn configuration_error_names_the_variable() {
    assert_eq!(
        ConfigurationError::Missing(Variable::RenovateSecrets).to_string(),
        "RENOVATE_SECRETS is not set"
    );
    assert_eq!(
        ConfigurationError::Missing(Variable::GiteaAccessToken).to_string(),
        "GITEA_ACCESS_TOKEN is not set"
    );
}

#[test]
fn job_carries_the_secrets_and_the_repository() {
    let secrets = Secrets::resolve(full_environment()).unwrap();
    let job = JobRequest::new(&secrets, &Repo::new("kjuulh/renovate".to_string()));
    assert_eq!(
        job,
        JobRequest {
            env: vec![
                var("GITHUB_COM_TOKEN", "github"),
                var("RENOVATE_SECRETS", "{\"a\":1}"),
                var("RENOVATE_CONFIG_FILE", "/opts/renovate/config.json"),
                var("RENOVATE_TOKEN", "renovate"),
            ],
            args: vec!["kjuulh/renovate".to_string()],
        }
    );
}

#[test]
fn job_does_not_carry_the_listing_credential() {
    let secrets = Secrets::resolve(full_environment()).unwrap();
    let job = JobRequest::new(&secrets, &Repo::new("a/b".to_string()));
    assert!(job.env.iter().all(|var| var.value != "access"));
    assert_eq!(job.env.len(), 4);
    assert_eq!(job.args.len(), 1);
}

#[test]
fn building_a_job_leaves_the_secrets_as_they_are() {
    let secrets = Secrets::resolve(full_environment()).unwrap();
    let first = JobRequest::new(&secrets, &Repo::new("a/b".to_string()));
    let second = JobRequest::new(&secrets, &Repo::new("c/d".to_string()));
    assert_eq!(first.env, second.env);
    assert_eq!(first.args, vec!["a/b".to_string()]);
    assert_eq!(second.args, vec!["c/d".to_string()]);
    assert_eq!(secrets, Secrets::resolve(full_environment()).unwrap());
}

#[test]
fn only_exit_status_zero_is_success() {
    assert!(JobStatus::Exited(0).is_success());
    assert!(!JobStatus::Exited(1).is_success());
    assert!(!JobStatus::Exited(-1).is_success());
    assert!(!JobStatus::Exited(i64::MAX).is_success());
    assert!(!JobStatus::Failed("runner unreachable".to_string()).is_success());
}
