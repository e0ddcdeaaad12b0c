//! Data model of the control plane: nodes, their lifecycle states, and the
//! delayed tasks that drive them, together with the mathematical views that
//! the contracts speak of.

use vstd::prelude::*;

verus! {

/// Body of a registration request: the shared authentication key the
/// registering server presents.
#[derive(Clone, Debug)]
pub struct Server {
    pub auth: String,
}

/// Geolocation of a registering IP, as the geolocation service reports it.
/// Only textual fields are kept here; the lifecycle logic reads nothing else.
#[derive(Clone, Debug)]
pub struct IpResponse {
    pub country: String,
    pub country_code: String,
    pub region: String,
    pub city: String,
    pub timezone: String,
}

/// Response of the certificate authority to a certificate request.
#[derive(Debug)]
pub struct CloudflareReturn {
    pub success: bool,
    pub result: CloudflareResult,
}

/// Payload of a certificate response: the PEM certificate and its handle.
#[derive(Debug)]
pub struct CloudflareResult {
    pub certificate: String,
    pub id: String,
}

/// Response of the DNS provider to a record creation.
#[derive(Debug)]
pub struct CloudflareDNSRecordCreate {
    pub success: bool,
    pub result: CloudflareDNSRecordCreateResult,
}

/// Payload of a DNS record creation response: the record's handle.
#[derive(Debug)]
pub struct CloudflareDNSRecordCreateResult {
    pub id: String,
}

/// Payload a node's health endpoint reports back.
#[derive(Debug)]
pub struct NodeStatusResponse {
    pub status: String,
    pub usage: String,
    pub ip: String,
    pub cert: String,
    pub record_id: String,
}

/// Keys the control plane is configured with at startup.
#[derive(Clone, Debug)]
pub struct Configuration {
    pub check_key: String,
    pub cloudflare_key: String,
    pub database_key: String,
}

/// Public information of a registered node, as it is handed back to the
/// registering caller.
#[derive(Clone, Debug)]
pub struct RegistryReturn {
    pub key: String,
    pub cert: String,
    pub ip: String,
    pub record_id: String,
    pub record_dns_id: String,
    pub cert_id: String,
    pub res: IpResponse,
    pub id: String,
}

/// A node tracked by the registry: its public information and its
/// lifecycle state.
#[derive(Clone, Debug)]
pub struct Node {
    pub information: RegistryReturn,
    pub state: NodeState,
}

/// The three lifecycle states of a node. No other states exist.
#[derive(PartialEq, Eq, Structural, Clone, Copy, Debug)]
pub enum NodeState {
    Online,
    Offline,
    Registering,
}

/// Retry counter carried inside a task type.
pub type Tries = i16;

/// The four kinds of deferred work, forming the lifecycle state machine.
/// The retry counter lives inside the variant, so `Purge` carries none.
#[derive(PartialEq, Eq, Structural, Clone, Copy, Debug)]
pub enum TaskType {
    CheckStatus(Tries),
    Instantiate(Tries),
    Dismiss(Tries),
    Purge,
}

/// A unit of deferred work against one node. `action_object` is the node's
/// key; the node itself is looked up again when the task runs.
#[derive(Debug)]
pub struct Task {
    pub task_type: TaskType,
    pub action_object: String,
    pub exec_at: u128,
}

/// Mathematical view of an `IpResponse`.
pub struct IpResponseView {
    pub country: Seq<char>,
    pub country_code: Seq<char>,
    pub region: Seq<char>,
    pub city: Seq<char>,
    pub timezone: Seq<char>,
}

/// Mathematical view of a `RegistryReturn`.
pub struct RegistryReturnView {
    pub key: Seq<char>,
    pub cert: Seq<char>,
    pub ip: Seq<char>,
    pub record_id: Seq<char>,
    pub record_dns_id: Seq<char>,
    pub cert_id: Seq<char>,
    pub res: IpResponseView,
    pub id: Seq<char>,
}

/// Mathematical view of a `Node`.
pub struct NodeView {
    pub information: RegistryReturnView,
    pub state: NodeState,
}

/// Mathematical view of a `Task`.
pub struct TaskView {
    pub task_type: TaskType,
    pub action_object: Seq<char>,
    pub exec_at: u128,
}

impl View for IpResponse {
    type V = IpResponseView;

    open spec fn view(&self) -> IpResponseView {
        IpResponseView {
            country: self.country@,
            country_code: self.country_code@,
            region: self.region@,
            city: self.city@,
            timezone: self.timezone@,
        }
    }
}

impl View for RegistryReturn {
    type V = RegistryReturnView;

    open spec fn view(&self) -> RegistryReturnView {
        RegistryReturnView {
            key: self.key@,
            cert: self.cert@,
            ip: self.ip@,
            record_id: self.record_id@,
            record_dns_id: self.record_dns_id@,
            cert_id: self.cert_id@,
            res: self.res@,
            id: self.id@,
        }
    }
}

impl View for Node {
    type V = NodeView;

    open spec fn view(&self) -> NodeView {
        NodeView { information: self.information@, state: self.state }
    }
}

impl View for Task {
    type V = TaskView;

    open spec fn view(&self) -> TaskView {
        TaskView {
            task_type: self.task_type,
            action_object: self.action_object@,
            exec_at: self.exec_at,
        }
    }
}

impl NodeView {
    /// The same node with another lifecycle state.
    pub open spec fn with_state(self, state: NodeState) -> NodeView {
        NodeView { information: self.information, state }
    }
}

/// The view of a task built from the given parts; the task handlers'
/// contracts enqueue follow-up work in these terms.
pub open spec fn task_view(task_type: TaskType, action_object: Seq<char>, exec_at: u128) -> TaskView {
    TaskView { task_type, action_object, exec_at }
}

} // verus!
