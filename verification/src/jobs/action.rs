//! What jobs do: the actions that a step of a job asks for, in order. The last
//! one of a step that does not end the job is the one whose answer the next step
//! needs.
use crate::text::{lit, opt_text, texts};
use crate::time::opt_int;
use vstd::prelude::*;
use vstd::string::*;

verus! {

/// An action of a job.
#[derive(Debug, PartialEq, Eq)]
pub enum Act {
    /// Adds a text to the log of the job.
    Log { text: String },
    /// Marks the cluster as being worked on.
    ClusterProvisioning,
    /// Marks the cluster as ready; the error is stored, or cleared.
    ClusterReady { error: Option<String> },
    /// Stores the number of control planes.
    Controlplanes { count: i64 },
    /// Stores the number of workers.
    Workers { count: i64 },
    /// Takes a node of the role out of the counts; workers stay at zero.
    OneLess { role: String },
    /// Stores a new node, which is being built.
    InsertNode { name: String, role: String, vmid: Option<i64>, ip: Option<String>, memory: i64, cores: i64, disk_gb: i64 },
    /// Marks the node as ready; an address is stored where one is known.
    NodeReady { ip: Option<String> },
    /// Marks the node as failed.
    NodeError,
    /// Marks the node as being upgraded.
    NodeUpgrading,
    /// Stores the addresses that were waited for.
    StoreAddresses,
    /// Stores the hardware of the node.
    StoreHardware { memory: Option<i64>, cores: Option<i64>, disk_gb: Option<i64> },
    /// Marks the node as ready with a version of the operating system.
    StoreOs { version: String },
    /// Marks the node as ready with a version of Kubernetes.
    StoreKubernetes { version: String },
    /// Stores the version of Kubernetes of the cluster.
    StoreClusterVersion { version: String },
    /// Goes on with the node at a place of the list, and looks for its machine configuration.
    TurnTo { node: usize },
    /// Deletes the row of the node.
    DeleteNode,
    /// Reads addresses and versions of all nodes again.
    SyncNodes,
    /// Approves the certificates that nodes have asked for.
    ApproveCerts,
    /// Reads the numbers of control planes and workers.
    ReadCounts,
    /// Looks whether a node of the name is stored.
    CheckName { name: String },
    /// Runs the script of the job.
    Script { args: Vec<String> },
    /// Looks whether the kubeconfig of the cluster is there.
    CheckKubeconfig,
    /// Waits until the node has its addresses.
    WaitAddresses { name: String, want_ip6: bool, secs: u64 },
    /// Waits until the node has its serving certificate.
    WaitCert { name: String, secs: u64 },
    /// Runs `kubectl`, against a given server where one is named. What it answers does not matter.
    Kubectl { server: Option<String>, args: Vec<String> },
    /// Deletes the node from Kubernetes with `kubectl`.
    DeleteFromCluster { args: Vec<String> },
    /// Waits until the API of the cluster answers.
    WaitApi,
    /// Waits until the API answers, at its own address or at a control plane.
    WaitAnyServer,
    /// Puts the bundle on the node.
    StageBundle { server: Option<String> },
    /// Runs the machine tool with the arguments.
    Machine { args: Vec<String> },
    /// Patches the machine configuration of the node to the version and applies it at the address.
    ApplyConfig { version: String, ip: String },
    /// Asks which version the kubelet of the node runs.
    KubeletVersion,
    /// Runs the upgrade agent on the node.
    RunAgent { version: String, control_plane: bool },
    /// Waits until the kubelet of the node runs the version.
    WaitKubelet { version: String },
    /// Waits until the machine has rebooted.
    WaitReboot { ip: String },
    /// Waits for some seconds.
    Pause { secs: u64 },
    /// Asks the hypervisor for the size of the disk.
    MeasureDisk,
    /// Reads the stored address of the node.
    ReadAddress,
    /// Gives the machine cores and memory.
    SetHardware { cores: Option<i64>, memory: Option<i64> },
    /// Grows the disk of the machine.
    GrowDisk { gib: i64 },
    /// Restarts the machine.
    RestartVm,
    /// Grows the file system through the machine API.
    GrowGuest { ip: String },
    /// Grows the file system while the machine is off.
    GrowOffline { vmid: i64 },
    /// Reads the provider of the cluster and opens its secret.
    ReadProvider,
    /// Deletes the machine of a name.
    DeleteVm { name: String },
    /// Deletes the machine of a number.
    DeleteVmNumber { vmid: i64 },
    /// Stores the first machine number of the cluster.
    StoreVmid { vmid: i64 },
    /// Stores the planned nodes in a state.
    SeedNodes { status: String },
    /// Marks the nodes that are not there yet as failed.
    NodesFailed,
    /// Marks the cluster as ready although nothing was built.
    StubCluster { endpoint: String, error: String },
    /// Looks for the kubeconfig that the script left.
    ResolveKubeconfig,
    /// Marks the cluster as ready at an endpoint.
    ClusterCreated { endpoint: String },
    /// Queues the add-ons whose settings were kept.
    RestoreAddons,
    /// Waits until the pod is ready.
    WaitPod,
    /// Copies the bundle into the pod.
    CopyBundle,
    /// Installs the trusted key from the pod.
    InstallKey,
    /// Asks for the phase of the pod.
    PodPhase,
    /// Copies the log of the pod to that of the job.
    PodLogs,
    /// Deletes the pod, and waits for that where it matters.
    DeletePod { wait: bool },
    /// The job is done.
    Done,
    /// The job has failed.
    Fail { error: String },
}

#[verifier::ext_equal]
pub ghost enum ActV {
    Log { text: Seq<char> },
    ClusterProvisioning,
    ClusterReady { error: Option<Seq<char>> },
    Controlplanes { count: int },
    Workers { count: int },
    OneLess { role: Seq<char> },
    InsertNode { name: Seq<char>, role: Seq<char>, vmid: Option<int>, ip: Option<Seq<char>>, memory: int, cores: int, disk_gb: int },
    NodeReady { ip: Option<Seq<char>> },
    NodeError,
    NodeUpgrading,
    StoreAddresses,
    StoreHardware { memory: Option<int>, cores: Option<int>, disk_gb: Option<int> },
    StoreOs { version: Seq<char> },
    StoreKubernetes { version: Seq<char> },
    StoreClusterVersion { version: Seq<char> },
    TurnTo { node: nat },
    DeleteNode,
    SyncNodes,
    ApproveCerts,
    ReadCounts,
    CheckName { name: Seq<char> },
    Script { args: Seq<Seq<char>> },
    CheckKubeconfig,
    WaitAddresses { name: Seq<char>, want_ip6: bool, secs: nat },
    WaitCert { name: Seq<char>, secs: nat },
    Kubectl { server: Option<Seq<char>>, args: Seq<Seq<char>> },
    DeleteFromCluster { args: Seq<Seq<char>> },
    WaitApi,
    WaitAnyServer,
    StageBundle { server: Option<Seq<char>> },
    Machine { args: Seq<Seq<char>> },
    ApplyConfig { version: Seq<char>, ip: Seq<char> },
    KubeletVersion,
    RunAgent { version: Seq<char>, control_plane: bool },
    WaitKubelet { version: Seq<char> },
    WaitReboot { ip: Seq<char> },
    Pause { secs: nat },
    MeasureDisk,
    ReadAddress,
    SetHardware { cores: Option<int>, memory: Option<int> },
    GrowDisk { gib: int },
    RestartVm,
    GrowGuest { ip: Seq<char> },
    GrowOffline { vmid: int },
    ReadProvider,
    DeleteVm { name: Seq<char> },
    DeleteVmNumber { vmid: int },
    StoreVmid { vmid: int },
    SeedNodes { status: Seq<char> },
    NodesFailed,
    StubCluster { endpoint: Seq<char>, error: Seq<char> },
    ResolveKubeconfig,
    ClusterCreated { endpoint: Seq<char> },
    RestoreAddons,
    WaitPod,
    CopyBundle,
    InstallKey,
    PodPhase,
    PodLogs,
    DeletePod { wait: bool },
    Done,
    Fail { error: Seq<char> },
}

impl View for Act {
    type V = ActV;

    open spec fn view(&self) -> ActV {
        match self {
            Act::Log { text } => ActV::Log { text: text@ },
            Act::ClusterProvisioning => ActV::ClusterProvisioning,
            Act::ClusterReady { error } => ActV::ClusterReady { error: opt_text(*error) },
            Act::Controlplanes { count } => ActV::Controlplanes { count: *count as int },
            Act::Workers { count } => ActV::Workers { count: *count as int },
            Act::OneLess { role } => ActV::OneLess { role: role@ },
            Act::InsertNode { name, role, vmid, ip, memory, cores, disk_gb } => ActV::InsertNode { name: name@, role: role@, vmid: opt_int(*vmid), ip: opt_text(*ip), memory: *memory as int, cores: *cores as int, disk_gb: *disk_gb as int },
            Act::NodeReady { ip } => ActV::NodeReady { ip: opt_text(*ip) },
            Act::NodeError => ActV::NodeError,
            Act::NodeUpgrading => ActV::NodeUpgrading,
            Act::StoreAddresses => ActV::StoreAddresses,
            Act::StoreHardware { memory, cores, disk_gb } => ActV::StoreHardware { memory: opt_int(*memory), cores: opt_int(*cores), disk_gb: opt_int(*disk_gb) },
            Act::StoreOs { version } => ActV::StoreOs { version: version@ },
            Act::StoreKubernetes { version } => ActV::StoreKubernetes { version: version@ },
            Act::StoreClusterVersion { version } => ActV::StoreClusterVersion { version: version@ },
            Act::TurnTo { node } => ActV::TurnTo { node: *node as nat },
            Act::DeleteNode => ActV::DeleteNode,
            Act::SyncNodes => ActV::SyncNodes,
            Act::ApproveCerts => ActV::ApproveCerts,
            Act::ReadCounts => ActV::ReadCounts,
            Act::CheckName { name } => ActV::CheckName { name: name@ },
            Act::Script { args } => ActV::Script { args: texts(args@) },
            Act::CheckKubeconfig => ActV::CheckKubeconfig,
            Act::WaitAddresses { name, want_ip6, secs } => ActV::WaitAddresses { name: name@, want_ip6: *want_ip6, secs: *secs as nat },
            Act::WaitCert { name, secs } => ActV::WaitCert { name: name@, secs: *secs as nat },
            Act::Kubectl { server, args } => ActV::Kubectl { server: opt_text(*server), args: texts(args@) },
            Act::DeleteFromCluster { args } => ActV::DeleteFromCluster { args: texts(args@) },
            Act::WaitApi => ActV::WaitApi,
            Act::WaitAnyServer => ActV::WaitAnyServer,
            Act::StageBundle { server } => ActV::StageBundle { server: opt_text(*server) },
            Act::Machine { args } => ActV::Machine { args: texts(args@) },
            Act::ApplyConfig { version, ip } => ActV::ApplyConfig { version: version@, ip: ip@ },
            Act::KubeletVersion => ActV::KubeletVersion,
            Act::RunAgent { version, control_plane } => ActV::RunAgent { version: version@, control_plane: *control_plane },
            Act::WaitKubelet { version } => ActV::WaitKubelet { version: version@ },
            Act::WaitReboot { ip } => ActV::WaitReboot { ip: ip@ },
            Act::Pause { secs } => ActV::Pause { secs: *secs as nat },
            Act::MeasureDisk => ActV::MeasureDisk,
            Act::ReadAddress => ActV::ReadAddress,
            Act::SetHardware { cores, memory } => ActV::SetHardware { cores: opt_int(*cores), memory: opt_int(*memory) },
            Act::GrowDisk { gib } => ActV::GrowDisk { gib: *gib as int },
            Act::RestartVm => ActV::RestartVm,
            Act::GrowGuest { ip } => ActV::GrowGuest { ip: ip@ },
            Act::GrowOffline { vmid } => ActV::GrowOffline { vmid: *vmid as int },
            Act::ReadProvider => ActV::ReadProvider,
            Act::DeleteVm { name } => ActV::DeleteVm { name: name@ },
            Act::DeleteVmNumber { vmid } => ActV::DeleteVmNumber { vmid: *vmid as int },
            Act::StoreVmid { vmid } => ActV::StoreVmid { vmid: *vmid as int },
            Act::SeedNodes { status } => ActV::SeedNodes { status: status@ },
            Act::NodesFailed => ActV::NodesFailed,
            Act::StubCluster { endpoint, error } => ActV::StubCluster { endpoint: endpoint@, error: error@ },
            Act::ResolveKubeconfig => ActV::ResolveKubeconfig,
            Act::ClusterCreated { endpoint } => ActV::ClusterCreated { endpoint: endpoint@ },
            Act::RestoreAddons => ActV::RestoreAddons,
            Act::WaitPod => ActV::WaitPod,
            Act::CopyBundle => ActV::CopyBundle,
            Act::InstallKey => ActV::InstallKey,
            Act::PodPhase => ActV::PodPhase,
            Act::PodLogs => ActV::PodLogs,
            Act::DeletePod { wait } => ActV::DeletePod { wait: *wait },
            Act::Done => ActV::Done,
            Act::Fail { error } => ActV::Fail { error: error@ },
        }
    }
}

/// The mathematical forms of actions.
pub open spec fn acts(v: Seq<Act>) -> Seq<ActV> {
    Seq::new(v.len(), |i: int| v[i]@)
}

/// Nothing to do yet.
pub open spec fn idle() -> Seq<ActV> {
    Seq::empty()
}

pub fn no_acts() -> (r: Vec<Act>)
    ensures
        acts(r@) == idle(),
{
    let v: Vec<Act> = Vec::new();
    assert(acts(v@) =~= idle());
    v
}

/// Adds an action.
pub fn act(v: &mut Vec<Act>, a: Act)
    ensures
        acts(final(v)@) == acts(old(v)@).push(a@),
{
    let ghost before = v@;
    let ghost av = a@;
    v.push(a);
    assert(acts(v@) =~= acts(before).push(av));
}

/// Adds actions.
pub fn add_acts(v: &mut Vec<Act>, more: Vec<Act>)
    ensures
        acts(final(v)@) == acts(old(v)@) + acts(more@),
{
    let ghost before = v@;
    let ghost added = more@;
    let mut more = more;
    v.append(&mut more);
    assert(acts(v@) =~= acts(before) + acts(added));
}

/// A text for the log.
pub open spec fn logged(text: Seq<char>) -> ActV {
    ActV::Log { text }
}

/// Adds a text for the log.
pub fn log(v: &mut Vec<Act>, text: &str)
    ensures
        acts(final(v)@) == acts(old(v)@).push(logged(text@)),
{
    act(v, Act::Log { text: lit(text) });
}

/// The job ends with an error.
pub open spec fn failed(error: Seq<char>) -> ActV {
    ActV::Fail { error }
}

/// Adds the end of the job with an error.
pub fn fail(v: &mut Vec<Act>, error: &str)
    ensures
        acts(final(v)@) == acts(old(v)@).push(failed(error@)),
{
    act(v, Act::Fail { error: lit(error) });
}

/// Takes the end of a part of a job back where it went well, so that the job can
/// go on; the result says whether it did.
pub fn go_on(v: &mut Vec<Act>) -> (r: bool)
    ensures
        r == is_done(acts(old(v)@)),
        acts(final(v)@) == (if r {
            acts(old(v)@).drop_last()
        } else {
            acts(old(v)@)
        }),
{
    let ghost before = v@;
    let n: usize = v.len();
    if n == 0 {
        return false;
    }
    assert(acts(before).last() == before.last()@);
    match &v[n - 1] {
        Act::Done => {},
        _ => {
            return false;
        },
    }
    v.pop();
    assert(acts(v@) =~= acts(before).drop_last());
    true
}

/// The actions end in success.
pub open spec fn is_done(s: Seq<ActV>) -> bool {
    s.len() > 0 && s.last() is Done
}

/// The actions end in failure.
pub open spec fn is_failed(s: Seq<ActV>) -> bool {
    s.len() > 0 && s.last() is Fail
}

/// Whether actions end in failure.
pub fn has_failed(v: &Vec<Act>) -> (r: bool)
    ensures
        r == is_failed(acts(v@)),
{
    let n: usize = v.len();
    if n == 0 {
        return false;
    }
    assert(acts(v@).last() == v@.last()@);
    match &v[n - 1] {
        Act::Fail { .. } => true,
        _ => false,
    }
}

/// The actions end the job.
pub open spec fn ends(s: Seq<ActV>) -> bool {
    s.len() > 0 && (s.last() is Done || s.last() is Fail)
}

} // verus!
