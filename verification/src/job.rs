//! What the job runner is asked to do for one repository, and the secrets
//! that every such request carries.

use crate::repo::Repo;
use vstd::prelude::*;
use vstd::string::*;

verus! {

/// The container image that runs the update tool.
pub const RENOVATE_IMAGE: &'static str = "renovate/renovate:35.19.2";

/// The update tool's configuration file, as it is named on the host.
pub const CONFIG_FILE: &'static str = "config.json";

/// The place of the configuration file inside the container.
pub const CONFIG_MOUNT_PATH: &'static str = "/opts/renovate/config.json";

/// A variable of the process environment that a sweep cannot do without.
#[derive(Clone, Copy, Debug, PartialEq, Eq, Structural)]
pub enum Variable {
    /// The credential for the hosting service's listing.
    GiteaAccessToken,
    /// The token with which the update tool reads release notes.
    GithubComToken,
    /// The update tool's secrets.
    RenovateSecrets,
    /// The token with which the update tool writes to the hosting service.
    GiteaRenovateToken,
}

/// The name of `variable` in the process environment.
pub open spec fn variable_name(variable: Variable) -> Seq<char> {
    match variable {
        Variable::GiteaAccessToken => "GITEA_ACCESS_TOKEN"@,
        Variable::GithubComToken => "GITHUB_COM_TOKEN"@,
        Variable::RenovateSecrets => "RENOVATE_SECRETS"@,
        Variable::GiteaRenovateToken => "GITEA_RENOVATE_TOKEN"@,
    }
}

impl Variable {
    /// The name under which the process environment holds the variable.
    pub fn name(&self) -> (name: &'static str)
        ensures
            name@ == variable_name(*self),
    {
        match self {
            Variable::GiteaAccessToken => "GITEA_ACCESS_TOKEN",
            Variable::GithubComToken => "GITHUB_COM_TOKEN",
            Variable::RenovateSecrets => "RENOVATE_SECRETS",
            Variable::GiteaRenovateToken => "GITEA_RENOVATE_TOKEN",
        }
    }
}

/// A sweep cannot start: a required variable is not set.
#[derive(Clone, Copy, Debug, PartialEq, Eq, Structural)]
pub enum ConfigurationError {
    Missing(Variable),
}

impl ConfigurationError {
    /// The error in words: the name of the missing variable, and that it is
    /// not set.
    pub open spec fn message(self) -> Seq<char> {
        match self {
            ConfigurationError::Missing(variable) => variable_name(variable) + " is not set"@,
        }
    }

    /// The error in words, for the log.
    pub fn to_string(&self) -> (text: String)
        ensures
            text@ == self.message(),
    {
        match self {
            ConfigurationError::Missing(variable) => {
                let mut text = String::from_str(variable.name());
                text.append(" is not set");
                text
            },
        }
    }
}

/// What the process environment holds of the four required variables; `None`
/// stands for a variable that is not set.
#[derive(Debug)]
pub struct Environment {
    pub gitea_access_token: Option<String>,
    pub github_com_token: Option<String>,
    pub renovate_secrets: Option<String>,
    pub gitea_renovate_token: Option<String>,
}

/// The values of the four required variables, as the contracts see them.
pub struct SecretsView {
    pub gitea_access_token: Seq<char>,
    pub github_com_token: Seq<char>,
    pub renovate_secrets: Seq<char>,
    pub gitea_renovate_token: Seq<char>,
}

/// The values of the four required variables, all of them present.
#[derive(Debug, PartialEq, Eq)]
pub struct Secrets {
    pub gitea_access_token: String,
    pub github_com_token: String,
    pub renovate_secrets: String,
    pub gitea_renovate_token: String,
}

impl View for Secrets {
    type V = SecretsView;

    open spec fn view(&self) -> SecretsView {
        SecretsView {
            gitea_access_token: self.gitea_access_token@,
            github_com_token: self.github_com_token@,
            renovate_secrets: self.renovate_secrets@,
            gitea_renovate_token: self.gitea_renovate_token@,
        }
    }
}

/// The first of the required variables, in the order of their declaration,
/// that `environment` does not hold; `None` where it holds them all.
pub open spec fn first_missing(environment: Environment) -> Option<Variable> {
    if environment.gitea_access_token is None {
        Some(Variable::GiteaAccessToken)
    } else if environment.github_com_token is None {
        Some(Variable::GithubComToken)
    } else if environment.renovate_secrets is None {
        Some(Variable::RenovateSecrets)
    } else if environment.gitea_renovate_token is None {
        Some(Variable::GiteaRenovateToken)
    } else {
        None
    }
}

impl Secrets {
    /// Checks once, before anything is fetched or dispatched, that every
    /// required variable is set. A variable that is set to the empty text
    /// counts as set.
    pub fn resolve(environment: Environment) -> (resolved: Result<Secrets, ConfigurationError>)
        ensures
            match first_missing(environment) {
                Some(variable) => resolved == Err::<Secrets, _>(
                    ConfigurationError::Missing(variable),
                ),
                None => resolved is Ok && resolved->Ok_0@ == (SecretsView {
                    gitea_access_token: environment.gitea_access_token->Some_0@,
                    github_com_token: environment.github_com_token->Some_0@,
                    renovate_secrets: environment.renovate_secrets->Some_0@,
                    gitea_renovate_token: environment.gitea_renovate_token->Some_0@,
                }),
            },
    {
        let gitea_access_token = match environment.gitea_access_token {
            Some(value) => value,
            None => { return Err(ConfigurationError::Missing(Variable::GiteaAccessToken)); },
        };
        let github_com_token = match environment.github_com_token {
            Some(value) => value,
            None => { return Err(ConfigurationError::Missing(Variable::GithubComToken)); },
        };
        let renovate_secrets = match environment.renovate_secrets {
            Some(value) => value,
            None => { return Err(ConfigurationError::Missing(Variable::RenovateSecrets)); },
        };
        let gitea_renovate_token = match environment.gitea_renovate_token {
            Some(value) => value,
            None => { return Err(ConfigurationError::Missing(Variable::GiteaRenovateToken)); },
        };
        Ok(Secrets { gitea_access_token, github_com_token, renovate_secrets, gitea_renovate_token })
    }
}

/// One variable of a job's environment.
#[derive(Debug, PartialEq, Eq)]
pub struct EnvVar {
    pub name: String,
    pub value: String,
}

/// A job as the contracts see it: the variables of its environment as pairs
/// of name and value, and its arguments.
pub struct JobRequestView {
    pub env: Seq<(Seq<char>, Seq<char>)>,
    pub args: Seq<Seq<char>>,
}

/// One invocation of the job runner: the variables to set in the container
/// made from `RENOVATE_IMAGE` with the configuration file mounted at
/// `CONFIG_MOUNT_PATH`, in the order in which they are set, and the
/// arguments to run it with.
#[derive(Debug, PartialEq, Eq)]
pub struct JobRequest {
    pub env: Vec<EnvVar>,
    pub args: Vec<String>,
}

impl View for JobRequest {
    type V = JobRequestView;

    open spec fn view(&self) -> JobRequestView {
        JobRequestView {
            env: self.env@.map_values(|var: EnvVar| (var.name@, var.value@)),
            args: self.args@.map_values(|arg: String| arg@),
        }
    }
}

/// The job for the repository called `repo`: the three secrets of the update
/// tool and the place of its configuration file in the environment, and the
/// repository's name as the only argument.
pub open spec fn job_for(secrets: SecretsView, repo: Seq<char>) -> JobRequestView {
    JobRequestView {
        env: seq![
            ("GITHUB_COM_TOKEN"@, secrets.github_com_token),
            ("RENOVATE_SECRETS"@, secrets.renovate_secrets),
            ("RENOVATE_CONFIG_FILE"@, "/opts/renovate/config.json"@),
            ("RENOVATE_TOKEN"@, secrets.gitea_renovate_token),
        ],
        args: seq![repo],
    }
}

impl JobRequest {
    /// Builds the job for `repo`. The secrets are copied into the request;
    /// `secrets` itself stays as it is, to be used for the next job.
    pub fn new(secrets: &Secrets, repo: &Repo) -> (job: JobRequest)
        ensures
            job@ == job_for(secrets@, repo@),
    {
        let mut env: Vec<EnvVar> = Vec::new();
        env.push(
            EnvVar {
                name: String::from_str("GITHUB_COM_TOKEN"),
                value: secrets.github_com_token.clone(),
            },
        );
        env.push(
            EnvVar {
                name: String::from_str("RENOVATE_SECRETS"),
                value: secrets.renovate_secrets.clone(),
            },
        );
        env.push(
            EnvVar {
                name: String::from_str("RENOVATE_CONFIG_FILE"),
                value: String::from_str(CONFIG_MOUNT_PATH),
            },
        );
        env.push(
            EnvVar {
                name: String::from_str("RENOVATE_TOKEN"),
                value: secrets.gitea_renovate_token.clone(),
            },
        );
        let mut args: Vec<String> = Vec::new();
        args.push(repo.to_string());
        let job = JobRequest { env, args };
        proof {
            assert(job@.env =~= job_for(secrets@, repo@).env);
            assert(job@.args =~= job_for(secrets@, repo@).args);
        }
        job
    }
}

/// How an invocation of the job runner ended.
#[derive(Debug, PartialEq, Eq)]
pub enum JobStatus {
    /// The job ran and exited with this status.
    Exited(i64),
    /// The runner gave no exit status, for this reason.
    Failed(String),
}

impl JobStatus {
    /// Whether the job ran and exited with status 0. Anything else is a
    /// failure of that job, to be logged; it is no failure of the sweep.
    pub fn is_success(&self) -> (success: bool)
        ensures
            success == (*self matches JobStatus::Exited(status) && status == 0),
    {
        match self {
            JobStatus::Exited(status) => *status == 0,
            JobStatus::Failed(_) => false,
        }
    }
}

} // verus!
