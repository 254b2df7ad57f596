use vstd::prelude::*;
use crate::errors::AwsError;

verus! {

/// A name/value binding injected into a container's environment at
/// task-launch time. Either side may be absent, as in the orchestration
/// service's own wire shape.
#[derive(Debug, Clone, PartialEq, Eq)]
pub struct KeyValuePair {
    pub name: Option<String>,
    pub value: Option<String>,
}

/// A trait to make data structures convertible into key-value pairs used to
/// override containers environments.
pub trait EcsOverrideEnv {
    /// Creates the vector of key-value pairs.
    fn create_ecs_override_env(self) -> Vec<KeyValuePair>;
}

/// Simplified network configuration for launching tasks.
///
/// This configuration can be parameterized with subnets only. Public IP
/// assignment is always enabled when it is turned into a full network
/// configuration.
#[derive(Debug, Clone)]
pub struct EcsNetworkConfiguration {
    /// The list of subnets for the configuration.
    pub subnets: Vec<String>,
}

impl View for EcsNetworkConfiguration {
    type V = Seq<String>;

    open spec fn view(&self) -> Seq<String> {
        self.subnets@
    }
}

impl EcsNetworkConfiguration {
    /// A configuration over exactly the given subnets.
    pub fn new(subnets: Vec<String>) -> (c: Self)
        ensures
            c@ == subnets@,
    {
        EcsNetworkConfiguration { subnets }
    }
}

/// Whether a launched task is given a public IP address.
#[derive(Debug, Clone, Copy, PartialEq, Eq, Structural)]
pub enum AssignPublicIp {
    Enabled,
    Disabled,
}

/// The deployment model of a container task: the serverless mode or the
/// host-managed mode.
#[derive(Debug, Clone, Copy, PartialEq, Eq, Structural)]
pub enum LaunchType {
    Fargate,
    Ec2,
}

/// Where a launched task's tags are inherited from.
#[derive(Debug, Clone, Copy, PartialEq, Eq, Structural)]
pub enum PropagateTags {
    TaskDefinition,
    Service,
}

/// The subnet-level part of a task's network configuration.
#[derive(Debug, Clone, PartialEq, Eq)]
pub struct AwsVpcConfiguration {
    pub subnets: Vec<String>,
    pub assign_public_ip: AssignPublicIp,
}

/// A task's network configuration.
#[derive(Debug, Clone, PartialEq, Eq)]
pub struct NetworkConfiguration {
    pub awsvpc_configuration: Option<AwsVpcConfiguration>,
}

impl vstd::std_specs::convert::FromSpecImpl<EcsNetworkConfiguration> for NetworkConfiguration {
    open spec fn obeys_from_spec() -> bool {
        true
    }

    open spec fn from_spec(v: EcsNetworkConfiguration) -> NetworkConfiguration {
        NetworkConfiguration {
            awsvpc_configuration: Some(
                AwsVpcConfiguration {
                    subnets: v.subnets,
                    assign_public_ip: AssignPublicIp::Enabled,
                },
            ),
        }
    }
}

impl From<EcsNetworkConfiguration> for NetworkConfiguration {
    /// The full network configuration over the given subnets, with public IP
    /// assignment always enabled.
    fn from(network_config: EcsNetworkConfiguration) -> (r: NetworkConfiguration) {
        NetworkConfiguration {
            awsvpc_configuration: Some(
                AwsVpcConfiguration {
                    subnets: network_config.subnets,
                    assign_public_ip: AssignPublicIp::Enabled,
                },
            ),
        }
    }
}

/// One container's overrides inside a task: which container they bind to and
/// the environment pairs injected into it.
#[derive(Debug, Clone, PartialEq, Eq)]
pub struct ContainerOverride {
    pub name: Option<String>,
    pub environment: Option<Vec<KeyValuePair>>,
}

/// A task-level override: the overrides of its containers.
#[derive(Debug, Clone, PartialEq, Eq)]
pub struct TaskOverride {
    pub container_overrides: Option<Vec<ContainerOverride>>,
}

/// What the library reads of one described task: its overrides, if any.
#[derive(Debug, Clone, PartialEq, Eq)]
pub struct Task {
    pub overrides: Option<TaskOverride>,
}

/// One "run task" request: a single task of the given definition, in the
/// given cluster, with the given container environment overrides.
#[derive(Debug, Clone, PartialEq, Eq)]
pub struct RunTaskRequest {
    pub cluster: String,
    pub count: i32,
    pub launch_type: LaunchType,
    pub network_configuration: NetworkConfiguration,
    pub task_definition: String,
    pub overrides: TaskOverride,
    pub propagate_tags: PropagateTags,
}

/// Builds the single "run task" request that launches `task_name` once.
///
/// Whatever the caller supplies, the request always carries an instance count
/// of 1, the serverless launch type, tag propagation from the task
/// definition, and public IP assignment enabled; only the subnet list and the
/// environment overrides are caller-controlled. The environment pairs are
/// bound to the named container as its single container override.
pub fn build_run_task_request(
    task_name: &str,
    container_name: &str,
    cluster_name: &str,
    network_config: EcsNetworkConfiguration,
    environment: Vec<KeyValuePair>,
) -> (r: RunTaskRequest)
    ensures
        r.cluster@ == cluster_name@,
        r.count == 1,
        r.launch_type == LaunchType::Fargate,
        r.task_definition@ == task_name@,
        r.propagate_tags == PropagateTags::TaskDefinition,
        r.network_configuration.awsvpc_configuration matches Some(vpc) && vpc.subnets@
            == network_config@ && vpc.assign_public_ip == AssignPublicIp::Enabled,
        r.overrides.container_overrides matches Some(cos) && cos@.len() == 1
            && (cos@[0].name matches Some(n) && n@ == container_name@)
            && cos@[0].environment == Some(environment),
{
    let task_override = TaskOverride {
        container_overrides: Some(
            vec![ContainerOverride {
                name: Some(container_name.to_owned()),
                environment: Some(environment),
            }],
        ),
    };
    RunTaskRequest {
        cluster: cluster_name.to_owned(),
        count: 1,
        launch_type: LaunchType::Fargate,
        network_configuration: NetworkConfiguration::from(network_config),
        task_definition: task_name.to_owned(),
        overrides: task_override,
        propagate_tags: PropagateTags::TaskDefinition,
    }
}

/// Builds the "run task" request for `override_config`'s environment pairs.
///
/// However the override source renders its pairs, the request launches
/// exactly one instance, with the serverless launch type, tag propagation
/// from the task definition, and public IP assignment enabled.
pub fn run_task_request<T: EcsOverrideEnv>(
    task_name: &str,
    container_name: &str,
    cluster_name: &str,
    network_config: EcsNetworkConfiguration,
    override_config: T,
) -> (r: RunTaskRequest)
    ensures
        r.cluster@ == cluster_name@,
        r.count == 1,
        r.launch_type == LaunchType::Fargate,
        r.task_definition@ == task_name@,
        r.propagate_tags == PropagateTags::TaskDefinition,
        r.network_configuration.awsvpc_configuration matches Some(vpc) && vpc.subnets@
            == network_config@ && vpc.assign_public_ip == AssignPublicIp::Enabled,
        r.overrides.container_overrides matches Some(cos) && cos@.len() == 1
            && (cos@[0].name matches Some(n) && n@ == container_name@)
            && cos@[0].environment is Some,
{
    let environment = override_config.create_ecs_override_env();
    build_run_task_request(task_name, container_name, cluster_name, network_config, environment)
}

/// The message of the error returned when a "run task" call fails remotely.
pub const LAUNCH_TASK_FAILURE_PREFIX: &'static str = "failed to start task ";

/// The error a failed "run task" call is wrapped into; `detail` is the remote
/// failure text.
pub fn launch_task_failure(detail: &str) -> (e: AwsError)
    ensures
        e.spec_details() == LAUNCH_TASK_FAILURE_PREFIX@ + detail@,
{
    AwsError::with_prefix(LAUNCH_TASK_FAILURE_PREFIX, detail)
}

/// The message of the error returned when a "describe tasks" call fails
/// remotely.
pub const DESCRIBE_TASKS_FAILURE_PREFIX: &'static str = "failed to get tasks ";

/// The error a failed "describe tasks" call is wrapped into; `detail` is the
/// remote failure text.
pub fn describe_tasks_failure(detail: &str) -> (e: AwsError)
    ensures
        e.spec_details() == DESCRIBE_TASKS_FAILURE_PREFIX@ + detail@,
{
    AwsError::with_prefix(DESCRIBE_TASKS_FAILURE_PREFIX, detail)
}

/// The message of the error returned when a "describe tasks" response carries
/// no task list.
pub const NO_TASKS_MESSAGE: &'static str = "no tasks found";

/// The message of the error returned when the override environment cannot be
/// extracted from the described tasks.
pub const COULD_NOT_EXTRACT_MESSAGE: &'static str =
    "could not extract override environment from tasks";

/// The environment list nested at the first task's overrides, first container
/// override, environment — if every level of that chain is present.
pub open spec fn extracted_override_environment(tasks: Seq<Task>) -> Option<Seq<KeyValuePair>> {
    if tasks.len() == 0 {
        None
    } else {
        match tasks[0].overrides {
            None => None,
            Some(ov) => match ov.container_overrides {
                None => None,
                Some(cos) => if cos@.len() == 0 {
                    None
                } else {
                    match cos@[0].environment {
                        None => None,
                        Some(env) => Some(env@),
                    }
                },
            },
        }
    }
}

/// Descends into the first task's overrides, its first container override,
/// and that override's environment list; absent at any level, the result is
/// absent, without distinguishing which level was missing.
pub fn get_override_environment_from_tasks(tasks: Vec<Task>) -> (r: Option<Vec<KeyValuePair>>)
    ensures
        match extracted_override_environment(tasks@) {
            Some(env) => r matches Some(v) && v@ == env,
            None => r is None,
        },
{
    let mut tasks = tasks;
    if tasks.len() == 0 {
        return None;
    }
    let task = tasks.remove(0);
    match task.overrides {
        None => None,
        Some(ov) => match ov.container_overrides {
            None => None,
            Some(cos) => {
                let mut cos = cos;
                if cos.len() == 0 {
                    None
                } else {
                    let co = cos.remove(0);
                    match co.environment {
                        None => None,
                        Some(env) => Some(env),
                    }
                }
            },
        },
    }
}

/// Resolves a "describe tasks" response body into the override environment.
///
/// A response without a task list, or with an empty one, yields the "no
/// tasks" error; a non-empty task list whose
/// override/container-override/environment chain is absent at any level
/// yields the "could not extract" error; otherwise the nested environment
/// list is returned exactly.
pub fn extract_task_override_environment(tasks: Option<Vec<Task>>) -> (r: Result<
    Vec<KeyValuePair>,
    AwsError,
>)
    ensures
        match tasks {
            None => r matches Err(e) && e.spec_details() == NO_TASKS_MESSAGE@,
            Some(ts) => if ts@.len() == 0 {
                r matches Err(e) && e.spec_details() == NO_TASKS_MESSAGE@
            } else {
                match extracted_override_environment(ts@) {
                    Some(env) => r matches Ok(v) && v@ == env,
                    None => r matches Err(e) && e.spec_details() == COULD_NOT_EXTRACT_MESSAGE@,
                }
            },
        },
{
    match tasks {
        None => Err(AwsError::new(NO_TASKS_MESSAGE)),
        Some(ts) => {
            if ts.len() == 0 {
                Err(AwsError::new(NO_TASKS_MESSAGE))
            } else {
                match get_override_environment_from_tasks(ts) {
                    Some(env) => Ok(env),
                    None => Err(AwsError::new(COULD_NOT_EXTRACT_MESSAGE)),
                }
            }
        },
    }
}

} // verus!
