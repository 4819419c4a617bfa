//! Resizing a node, step by step.
//!
//! Each function takes the answer to the last action of the step before it and
//! says what to do next: cores and memory first, then the disk, a restart where
//! cores or memory changed, and the guest's file system last.
use crate::jobs::action::{
    Act, ActV, act, acts, ends, fail, failed, idle, is_done, log, logged, no_acts,
};
use crate::jobs::lab::Hypervisor;
use crate::jobs::nodes::{DiskStep, ResizePlan, disk_step, plan_disk};
use crate::num::{i64_str, sdec};
use crate::text::{lit, opt_text, str_eq};
use crate::time::opt_int;
use vstd::prelude::*;
use vstd::string::*;

verus! {

/// A job that resizes a node.
#[derive(Debug, PartialEq, Eq)]
pub struct ResizeJob {
    pub name: String,
    pub vmid: i64,
    /// The kind of the provider.
    pub kind: String,
    pub plan: ResizePlan,
    /// The size of the disk as it is recorded.
    pub recorded_disk: Option<i64>,
    /// The size that the request names.
    pub asked_disk: Option<i64>,
}

/// The family of a provider kind as resizing reads it.
pub open spec fn resize_family(kind: Seq<char>) -> Hypervisor {
    if kind == "vsphere"@ || kind == "esxi"@ {
        Hypervisor::Vsphere
    } else if kind == "nutanix"@ {
        Hypervisor::Nutanix
    } else {
        Hypervisor::Proxmox
    }
}

pub fn resize_hypervisor(kind: &str) -> (r: Hypervisor)
    ensures
        r == resize_family(kind@),
{
    if str_eq(kind, "vsphere") || str_eq(kind, "esxi") {
        Hypervisor::Vsphere
    } else if str_eq(kind, "nutanix") {
        Hypervisor::Nutanix
    } else {
        Hypervisor::Proxmox
    }
}

/// How the hypervisor is called in the log.
pub open spec fn family_name(kind: Seq<char>) -> Seq<char> {
    match resize_family(kind) {
        Hypervisor::Vsphere => "ESXi"@,
        Hypervisor::Nutanix => "Nutanix"@,
        Hypervisor::Proxmox => "Proxmox"@,
    }
}

fn name_of_family(kind: &str) -> (r: String)
    ensures
        r@ == family_name(kind@),
{
    match resize_hypervisor(kind) {
        Hypervisor::Vsphere => lit("ESXi"),
        Hypervisor::Nutanix => lit("Nutanix"),
        Hypervisor::Proxmox => lit("Proxmox"),
    }
}

/// A number that may be missing, as diagnostics show it.
pub open spec fn shown_number(o: Option<i64>) -> Seq<char> {
    match o {
        Some(n) => "Some("@ + sdec(n as int) + ")"@,
        None => "None"@,
    }
}

fn show_number(o: Option<i64>) -> (r: String)
    ensures
        r@ == shown_number(o),
{
    match o {
        Some(n) => lit("Some(").concat(&i64_str(n)).concat(")"),
        None => lit("None"),
    }
}

/// The machine number of a node, or the complaint that it has none.
pub fn resize_vmid(name: &str, vmid: Option<i64>) -> (r: Result<i64, String>)
    ensures
        match r {
            Ok(n) => vmid == Some(n),
            Err(e) => vmid is None && e@ == "node "@ + name@ + " has no VMID"@,
        },
{
    match vmid {
        Some(n) => Ok(n),
        None => Err(lit("node ").concat(name).concat(" has no VMID")),
    }
}

/// The end of a resize: what was asked for is recorded.
pub open spec fn resized(a: Seq<ActV>, j: ResizeJob) -> Seq<ActV> {
    a.push(
        ActV::StoreHardware {
            memory: opt_int(j.plan.memory),
            cores: opt_int(j.plan.cores),
            disk_gb: opt_int(j.plan.disk_gb),
        },
    ).push(logged("hardware updated for "@ + j.name@ + "\n"@)).push(ActV::Done)
}

fn finish(v: &mut Vec<Act>, j: &ResizeJob)
    ensures
        acts(final(v)@) == resized(acts(old(v)@), *j),
{
    act(
        v,
        Act::StoreHardware {
            memory: j.plan.memory,
            cores: j.plan.cores,
            disk_gb: j.plan.disk_gb,
        },
    );
    log(v, &lit("hardware updated for ").concat(&j.name).concat("\n"));
    act(v, Act::Done);
}

/// The guest's file system grows where a disk size was asked for or the disk has
/// grown.
pub open spec fn then_guest(a: Seq<ActV>, j: ResizeJob, grew: bool) -> Seq<ActV> {
    if j.plan.disk_requested || grew {
        a.push(ActV::ReadAddress)
    } else {
        resized(a, j)
    }
}

fn go_guest(v: &mut Vec<Act>, j: &ResizeJob, grew: bool)
    ensures
        acts(final(v)@) == then_guest(acts(old(v)@), *j, grew),
{
    if j.plan.disk_requested || grew {
        act(v, Act::ReadAddress);
    } else {
        finish(v, j);
    }
}

/// The machine restarts where cores or memory changed.
pub open spec fn then_restart(a: Seq<ActV>, j: ResizeJob, grew: bool) -> Seq<ActV> {
    if j.plan.restarts() {
        a.push(logged("restarting VM so CPU/memory take effect…\n"@)).push(ActV::RestartVm)
    } else {
        then_guest(a, j, grew)
    }
}

fn go_restart(v: &mut Vec<Act>, j: &ResizeJob, grew: bool)
    ensures
        acts(final(v)@) == then_restart(acts(old(v)@), *j, grew),
{
    if j.plan.needs_restart() {
        log(v, "restarting VM so CPU/memory take effect…\n");
        act(v, Act::RestartVm);
    } else {
        go_guest(v, j, grew);
    }
}

/// The size of the disk: what was measured, else what is recorded, else none.
pub open spec fn disk_size(measured: Option<i64>, recorded: Option<i64>) -> int {
    match (measured, recorded) {
        (Some(m), _n) => m as int,
        (None, Some(c)) => c as int,
        (None, None) => 0,
    }
}

/// The disk grows where it is smaller than what is to be.
pub open spec fn then_disk(a: Seq<ActV>, j: ResizeJob, measured: Option<i64>) -> Seq<ActV> {
    match disk_step(j.plan, disk_size(measured, j.recorded_disk)) {
        DiskStep::Grow(_a, want) => a.push(ActV::GrowDisk { gib: want as int }),
        DiskStep::AlreadyLarge(want) => then_restart(
            a.push(
                logged(
                    family_name(j.kind@) + " disk already >= "@ + sdec(want as int)
                        + " GiB — will grow guest EPHEMERAL\n"@,
                ),
            ),
            j,
            false,
        ),
        DiskStep::Keep => then_restart(a, j, false),
    }
}

fn go_disk(v: &mut Vec<Act>, j: &ResizeJob, measured: Option<i64>)
    ensures
        acts(final(v)@) == then_disk(acts(old(v)@), *j, measured),
{
    match plan_disk(&j.plan, measured, j.recorded_disk) {
        DiskStep::Grow(_a, want) => {
            act(v, Act::GrowDisk { gib: want });
        },
        DiskStep::AlreadyLarge(want) => {
            log(
                v,
                &name_of_family(&j.kind).concat(" disk already >= ").concat(
                    &i64_str(want),
                ).concat(" GiB — will grow guest EPHEMERAL\n"),
            );
            go_restart(v, j, false);
        },
        DiskStep::Keep => {
            go_restart(v, j, false);
        },
    }
}

/// Cores and memory are set where they change.
pub open spec fn then_hardware(a: Seq<ActV>, j: ResizeJob, measured: Option<i64>) -> Seq<ActV> {
    if j.plan.restarts() {
        let b = if resize_family(j.kind@) == Hypervisor::Vsphere {
            a.push(
                logged(
                    "powering off VM so ESXi can apply CPU/memory (hot-plug not supported for this guest)\n"@,
                ),
            )
        } else {
            a
        };
        b.push(
            ActV::SetHardware {
                cores: opt_int(j.plan.set_cores),
                memory: opt_int(j.plan.set_memory),
            },
        )
    } else {
        then_disk(a, j, measured)
    }
}

fn go_hardware(v: &mut Vec<Act>, j: &ResizeJob, measured: Option<i64>)
    ensures
        acts(final(v)@) == then_hardware(acts(old(v)@), *j, measured),
{
    if j.plan.needs_restart() {
        match resize_hypervisor(&j.kind) {
            Hypervisor::Vsphere => {
                log(
                    v,
                    "powering off VM so ESXi can apply CPU/memory (hot-plug not supported for this guest)\n",
                );
            },
            _ => {},
        }
        act(v, Act::SetHardware { cores: j.plan.set_cores, memory: j.plan.set_memory });
    } else {
        go_disk(v, j, measured);
    }
}

/// The first step of a resize. On Proxmox the disk is measured first.
pub open spec fn resize_started(j: ResizeJob) -> Seq<ActV> {
    let a = if j.plan.shrink_refused && j.recorded_disk is Some && j.asked_disk is Some {
        idle().push(
            logged(
                "warn: disk can only grow (have "@ + sdec(j.recorded_disk->0 as int)
                    + " GiB, asked "@ + sdec(j.asked_disk->0 as int)
                    + " GiB) — skipping disk shrink\n"@,
            ),
        )
    } else {
        idle()
    };
    let b = a.push(
        logged(
            "resize "@ + j.name@ + " (vmid="@ + sdec(j.vmid as int) + "): cores="@ + shown_number(
                j.plan.cores,
            ) + " memory="@ + shown_number(j.plan.memory) + "MB disk="@ + shown_number(
                j.plan.disk_gb,
            ) + "GiB\n"@,
        ),
    );
    if resize_family(j.kind@) == Hypervisor::Proxmox {
        b.push(ActV::MeasureDisk)
    } else {
        then_hardware(b, j, None)
    }
}

/// Starts a resize.
pub fn resize_begin(j: &ResizeJob) -> (r: Vec<Act>)
    ensures
        acts(r@) == resize_started(*j),
{
    let mut v = no_acts();
    if j.plan.shrink_refused {
        match (j.recorded_disk, j.asked_disk) {
            (Some(cur), Some(d)) => {
                log(
                    &mut v,
                    &lit("warn: disk can only grow (have ").concat(&i64_str(cur)).concat(
                        " GiB, asked ",
                    ).concat(&i64_str(d)).concat(" GiB) — skipping disk shrink\n"),
                );
            },
            _ => {},
        }
    }
    log(
        &mut v,
        &lit("resize ").concat(&j.name).concat(" (vmid=").concat(&i64_str(j.vmid)).concat(
            "): cores=",
        ).concat(&show_number(j.plan.cores)).concat(" memory=").concat(
            &show_number(j.plan.memory),
        ).concat("MB disk=").concat(&show_number(j.plan.disk_gb)).concat("GiB\n"),
    );
    match resize_hypervisor(&j.kind) {
        Hypervisor::Proxmox => {
            act(&mut v, Act::MeasureDisk);
        },
        _ => {
            go_hardware(&mut v, j, None);
        },
    }
    v
}

/// What is done once the disk was measured.
pub open spec fn resize_measure(j: ResizeJob, got: Result<Option<i64>, String>) -> Seq<ActV> {
    match got {
        Ok(m) => then_hardware(
            idle().push(
                logged(
                    match m {
                        Some(actual) => "Proxmox scsi0 size="@ + sdec(actual as int)
                            + " GiB (db disk_gb="@ + shown_number(j.recorded_disk) + ")\n"@,
                        None => "Proxmox scsi0 size unknown\n"@,
                    },
                ),
            ),
            j,
            m,
        ),
        Err(e) => idle().push(failed(e@)),
    }
}

/// After the disk was measured.
pub fn resize_measured(j: &ResizeJob, got: &Result<Option<i64>, String>) -> (r: Vec<Act>)
    ensures
        acts(r@) == resize_measure(*j, *got),
{
    let mut v = no_acts();
    match got {
        Ok(m) => {
            match m {
                Some(actual) => {
                    log(
                        &mut v,
                        &lit("Proxmox scsi0 size=").concat(&i64_str(*actual)).concat(
                            " GiB (db disk_gb=",
                        ).concat(&show_number(j.recorded_disk)).concat(")\n"),
                    );
                },
                None => {
                    log(&mut v, "Proxmox scsi0 size unknown\n");
                },
            }
            go_hardware(&mut v, j, *m);
        },
        Err(e) => {
            fail(&mut v, e);
        },
    }
    v
}

/// What is done once cores and memory were set.
pub open spec fn resize_hardware(j: ResizeJob, measured: Option<i64>, got: Result<(), String>) ->
    Seq<ActV> {
    match got {
        Ok(_) => then_disk(
            idle().push(logged("updated "@ + family_name(j.kind@) + " CPU/memory config\n"@)),
            j,
            measured,
        ),
        Err(e) => idle().push(failed(e@)),
    }
}

/// After cores and memory were set.
pub fn resize_hardware_set(j: &ResizeJob, measured: Option<i64>, got: &Result<(), String>) -> (r:
    Vec<Act>)
    ensures
        acts(r@) == resize_hardware(*j, measured, *got),
{
    let mut v = no_acts();
    match got {
        Ok(_) => {
            log(
                &mut v,
                &lit("updated ").concat(&name_of_family(&j.kind)).concat(" CPU/memory config\n"),
            );
            go_disk(&mut v, j, measured);
        },
        Err(e) => {
            fail(&mut v, e);
        },
    }
    v
}

/// What is done once the disk has grown.
pub open spec fn resize_grow(j: ResizeJob, measured: Option<i64>, got: Result<(), String>) -> Seq<
    ActV,
> {
    match got {
        Ok(_) => then_restart(
            idle().push(
                logged(
                    "grew "@ + family_name(j.kind@) + " disk "@ + sdec(
                        disk_size(measured, j.recorded_disk),
                    ) + " → "@ + (match j.plan.disk_gb {
                        Some(w) => sdec(w as int),
                        None => ""@,
                    }) + " GiB\n"@,
                ),
            ),
            j,
            true,
        ),
        Err(e) => idle().push(failed(e@)),
    }
}

/// After the disk was to grow.
pub fn resize_grown(j: &ResizeJob, measured: Option<i64>, got: &Result<(), String>) -> (r: Vec<Act>)
    ensures
        acts(r@) == resize_grow(*j, measured, *got),
{
    let mut v = no_acts();
    match got {
        Ok(_) => {
            let actual: i64 = match measured {
                Some(m) => m,
                None => match j.recorded_disk {
                    Some(c) => c,
                    None => 0,
                },
            };
            let want = match j.plan.disk_gb {
                Some(w) => i64_str(w),
                None => lit(""),
            };
            log(
                &mut v,
                &lit("grew ").concat(&name_of_family(&j.kind)).concat(" disk ").concat(
                    &i64_str(actual),
                ).concat(" → ").concat(&want).concat(" GiB\n"),
            );
            go_restart(&mut v, j, true);
        },
        Err(e) => {
            fail(&mut v, e);
        },
    }
    v
}

/// What is done once the machine has restarted.
pub open spec fn resize_restart(j: ResizeJob, grew: bool, got: Result<(), String>) -> Seq<ActV> {
    match got {
        Ok(_) => then_guest(idle().push(logged("VM restarted\n"@)), j, grew),
        Err(e) => idle().push(failed(e@)),
    }
}

/// After the machine was to restart; `grew` says that its disk has grown.
pub fn resize_restarted(j: &ResizeJob, grew: bool, got: &Result<(), String>) -> (r: Vec<Act>)
    ensures
        acts(r@) == resize_restart(*j, grew, *got),
{
    let mut v = no_acts();
    match got {
        Ok(_) => {
            log(&mut v, "VM restarted\n");
            go_guest(&mut v, j, grew);
        },
        Err(e) => {
            fail(&mut v, e);
        },
    }
    v
}

/// The file system is grown while the machine is off.
pub open spec fn then_offline(a: Seq<ActV>, j: ResizeJob) -> Seq<ActV> {
    a.push(
        logged("grow-disk unavailable; trying offline EPHEMERAL grow via PROXMOX_SSH…\n"@),
    ).push(ActV::GrowOffline { vmid: j.vmid as int })
}

fn go_offline(v: &mut Vec<Act>, j: &ResizeJob)
    ensures
        acts(final(v)@) == then_offline(acts(old(v)@), *j),
{
    log(v, "grow-disk unavailable; trying offline EPHEMERAL grow via PROXMOX_SSH…\n");
    act(v, Act::GrowOffline { vmid: j.vmid });
}

/// The first try to grow the file system: through the machine API, where the
/// node has an address and the tool is there.
pub open spec fn grow_first(j: ResizeJob, ip: Option<Seq<char>>, tool: bool) -> Seq<ActV> {
    match ip {
        Some(a) => if tool {
            idle().push(
                logged("waiting for guest API "@ + a + ":50000 then grow-disk…\n"@),
            ).push(ActV::GrowGuest { ip: a })
        } else {
            then_offline(
                idle().push(
                    logged("pertiskctl missing — cannot grow guest EPHEMERAL via API\n"@),
                ),
                j,
            )
        },
        None => then_offline(
            idle().push(logged("node has no IP — cannot grow guest EPHEMERAL via API\n"@)),
            j,
        ),
    }
}

/// After the stored address of the node was read; `tool` says that the machine
/// tool is there.
pub fn resize_address_read(j: &ResizeJob, ip: &Option<String>, tool: bool) -> (r: Vec<Act>)
    ensures
        acts(r@) == grow_first(*j, opt_text(*ip), tool),
{
    let mut v = no_acts();
    match ip {
        Some(a) => {
            if tool {
                log(
                    &mut v,
                    &lit("waiting for guest API ").concat(a).concat(":50000 then grow-disk…\n"),
                );
                act(&mut v, Act::GrowGuest { ip: lit(a) });
            } else {
                log(&mut v, "pertiskctl missing — cannot grow guest EPHEMERAL via API\n");
                go_offline(&mut v, j);
            }
        },
        None => {
            log(&mut v, "node has no IP — cannot grow guest EPHEMERAL via API\n");
            go_offline(&mut v, j);
        },
    }
    v
}

/// What is done once the file system was to grow through the machine API.
pub open spec fn grow_second(j: ResizeJob, ok: bool) -> Seq<ActV> {
    if ok {
        resized(idle(), j)
    } else {
        then_offline(idle(), j)
    }
}

/// After the file system was to grow through the machine API.
pub fn resize_guest_grown(j: &ResizeJob, ok: bool) -> (r: Vec<Act>)
    ensures
        acts(r@) == grow_second(*j, ok),
{
    let mut v = no_acts();
    if ok {
        finish(&mut v, j);
    } else {
        go_offline(&mut v, j);
    }
    v
}

/// What is done once the file system was to grow offline: if it did not, the
/// machine restarts.
pub open spec fn grow_third(j: ResizeJob, ok: bool) -> Seq<ActV> {
    if ok {
        resized(idle(), j)
    } else {
        idle().push(
            logged("offline grow unavailable; restarting VM so boot may grow EPHEMERAL…\n"@),
        ).push(ActV::RestartVm)
    }
}

/// After the file system was to grow offline.
pub fn resize_offline_grown(j: &ResizeJob, ok: bool) -> (r: Vec<Act>)
    ensures
        acts(r@) == grow_third(*j, ok),
{
    let mut v = no_acts();
    if ok {
        finish(&mut v, j);
    } else {
        log(&mut v, "offline grow unavailable; restarting VM so boot may grow EPHEMERAL…\n");
        act(&mut v, Act::RestartVm);
    }
    v
}

/// What is done once the machine has restarted for its file system: the machine
/// API is tried once more.
pub open spec fn grow_fourth(
    j: ResizeJob,
    ip: Option<Seq<char>>,
    tool: bool,
    got: Result<(), String>,
) -> Seq<ActV> {
    match got {
        Ok(_) => {
            let a = idle().push(logged("VM restarted\n"@));
            if ip is Some && tool {
                a.push(ActV::GrowGuest { ip: ip->0 })
            } else {
                resized(a, j)
            }
        },
        Err(e) => idle().push(failed(e@)),
    }
}

/// After the machine was to restart for its file system.
pub fn resize_restarted_again(
    j: &ResizeJob,
    ip: &Option<String>,
    tool: bool,
    got: &Result<(), String>,
) -> (r: Vec<Act>)
    ensures
        acts(r@) == grow_fourth(*j, opt_text(*ip), tool, *got),
{
    let mut v = no_acts();
    match got {
        Ok(_) => {
            log(&mut v, "VM restarted\n");
            match ip {
                Some(a) => {
                    if tool {
                        act(&mut v, Act::GrowGuest { ip: lit(a) });
                        return v;
                    }
                },
                None => {},
            }
            finish(&mut v, j);
        },
        Err(e) => {
            fail(&mut v, e);
        },
    }
    v
}

/// After the last try: the resize ends whatever it gave.
pub fn resize_tried_again(j: &ResizeJob) -> (r: Vec<Act>)
    ensures
        acts(r@) == resized(idle(), *j),
{
    let mut v = no_acts();
    finish(&mut v, j);
    v
}

// ---------------------------------------------------------------------------
// The whole of a resize
// ---------------------------------------------------------------------------

/// What happens to a resize: it begins, or its last action was answered.
#[derive(Debug, PartialEq, Eq)]
pub enum ResizeEvent {
    Begun,
    Measured(Result<Option<i64>, String>),
    HardwareSet(Result<(), String>),
    DiskGrown(Result<(), String>),
    Restarted(Result<(), String>),
    AddressRead(Option<String>),
    /// The file system was to grow through the machine API.
    GuestGrown(bool),
    /// The file system was to grow while the machine was off.
    OfflineGrown(bool),
}

/// What a resize remembers from one step to the next.
#[derive(Debug, PartialEq, Eq)]
pub struct Resizing {
    /// The machine tool is there.
    pub tool: bool,
    /// The size of the disk that was measured.
    pub measured: Option<i64>,
    /// The disk has grown.
    pub grew: bool,
    /// The address of the node.
    pub ip: Option<String>,
    /// The file system was tried to grow in every way once.
    pub again: bool,
}

impl Resizing {
    pub fn start(tool: bool) -> (r: Resizing)
        ensures
            r == (Resizing { tool, measured: None, grew: false, ip: None, again: false }),
    {
        Resizing { tool, measured: None, grew: false, ip: None, again: false }
    }
}

/// What a resize remembers after an event.
pub open spec fn resizing_after(st: Resizing, e: ResizeEvent) -> Resizing {
    match e {
        ResizeEvent::Measured(Ok(m)) => Resizing { measured: m, ..st },
        ResizeEvent::DiskGrown(got) => Resizing { grew: got is Ok, ..st },
        ResizeEvent::AddressRead(ip) => Resizing { ip, ..st },
        ResizeEvent::OfflineGrown(_) => Resizing { again: true, ..st },
        _ => st,
    }
}

/// What a resize does after an event.
pub open spec fn resize_step(j: ResizeJob, st: Resizing, e: ResizeEvent) -> Seq<ActV> {
    match e {
        ResizeEvent::Begun => resize_started(j),
        ResizeEvent::Measured(got) => resize_measure(j, got),
        ResizeEvent::HardwareSet(got) => resize_hardware(j, st.measured, got),
        ResizeEvent::DiskGrown(got) => resize_grow(j, st.measured, got),
        ResizeEvent::Restarted(got) => if st.again {
            grow_fourth(j, opt_text(st.ip), st.tool, got)
        } else {
            resize_restart(j, st.grew, got)
        },
        ResizeEvent::AddressRead(ip) => grow_first(j, opt_text(ip), st.tool),
        ResizeEvent::GuestGrown(ok) => if st.again {
            resized(idle(), j)
        } else {
            grow_second(j, ok)
        },
        ResizeEvent::OfflineGrown(ok) => grow_third(j, ok),
    }
}

/// The next step of a resize.
pub fn resize_next(j: &ResizeJob, st: &mut Resizing, e: ResizeEvent) -> (r: Vec<Act>)
    ensures
        *final(st) == resizing_after(*old(st), e),
        acts(r@) == resize_step(*j, *old(st), e),
{
    match e {
        ResizeEvent::Begun => resize_begin(j),
        ResizeEvent::Measured(got) => {
            let v = resize_measured(j, &got);
            match got {
                Ok(m) => {
                    st.measured = m;
                },
                Err(_) => {},
            }
            v
        },
        ResizeEvent::HardwareSet(got) => resize_hardware_set(j, st.measured, &got),
        ResizeEvent::DiskGrown(got) => {
            let v = resize_grown(j, st.measured, &got);
            st.grew = got.is_ok();
            v
        },
        ResizeEvent::Restarted(got) => if st.again {
            resize_restarted_again(j, &st.ip, st.tool, &got)
        } else {
            resize_restarted(j, st.grew, &got)
        },
        ResizeEvent::AddressRead(ip) => {
            let v = resize_address_read(j, &ip, st.tool);
            st.ip = ip;
            v
        },
        ResizeEvent::GuestGrown(ok) => if st.again {
            resize_tried_again(j)
        } else {
            resize_guest_grown(j, ok)
        },
        ResizeEvent::OfflineGrown(ok) => {
            let v = resize_offline_grown(j, ok);
            st.again = true;
            v
        },
    }
}

/// The event answers the action.
pub open spec fn answers(a: ActV, e: ResizeEvent) -> bool {
    match e {
        ResizeEvent::Begun => false,
        ResizeEvent::Measured(_) => a is MeasureDisk,
        ResizeEvent::HardwareSet(_) => a is SetHardware,
        ResizeEvent::DiskGrown(_) => a is GrowDisk,
        ResizeEvent::Restarted(_) => a is RestartVm,
        ResizeEvent::AddressRead(_) => a is ReadAddress,
        ResizeEvent::GuestGrown(_) => a is GrowGuest,
        ResizeEvent::OfflineGrown(_) => a is GrowOffline,
    }
}

/// A bound on the steps that follow an action whose answer is waited for.
pub open spec fn steps_left(a: ActV, again: bool) -> nat {
    match a {
        ActV::MeasureDisk => 9,
        ActV::SetHardware { .. } => 8,
        ActV::GrowDisk { .. } => 7,
        ActV::RestartVm => if again {
            2
        } else {
            6
        },
        ActV::ReadAddress => 5,
        ActV::GrowGuest { .. } => if again {
            1
        } else {
            4
        },
        ActV::GrowOffline { .. } => 3,
        _ => 0,
    }
}

/// A resize ends: each answer leaves fewer steps than there were before it, and
/// where none is left the job is done or has failed.
pub proof fn law_resize_ends(j: ResizeJob, st: Resizing, a: ActV, e: ResizeEvent)
    requires
        answers(a, e),
    ensures
        ({
            let s = resize_step(j, st, e);
            let left = steps_left(s.last(), resizing_after(st, e).again);
            s.len() > 0 && left < steps_left(a, st.again) && (left == 0 ==> ends(s))
        }),
{
}

/// Hardware is recorded only by the step that ends the resize well, and an error
/// of the hypervisor ends the resize with nothing recorded.
pub proof fn law_hardware_is_recorded_at_the_end(j: ResizeJob, st: Resizing, e: ResizeEvent)
    ensures
        ({
            let s = resize_step(j, st, e);
            &&& forall|i: int|
                0 <= i < s.len() && (#[trigger] s[i]) is StoreHardware ==> is_done(s) && i == s.len()
                    - 3
            &&& (match e {
                ResizeEvent::Measured(Err(m)) => s == idle().push(failed(m@)),
                ResizeEvent::HardwareSet(Err(m)) => s == idle().push(failed(m@)),
                ResizeEvent::DiskGrown(Err(m)) => s == idle().push(failed(m@)),
                ResizeEvent::Restarted(Err(m)) => s == idle().push(failed(m@)),
                _ => true,
            })
        }),
{
}

/// The hypervisor is asked to grow a disk only beyond what it has, and never to
/// change cores or memory that are as they should be.
pub proof fn law_hypervisor_changes_only_what_differs(j: ResizeJob, measured: Option<i64>)
    ensures
        then_disk(idle(), j, measured).last() matches ActV::GrowDisk { gib } ==> gib > disk_size(
            measured,
            j.recorded_disk,
        ),
        then_hardware(idle(), j, measured).last() is SetHardware ==> j.plan.set_cores is Some
            || j.plan.set_memory is Some,
{
}

/// A resize that neither changes cores or memory nor names a disk size, and
/// whose disk is large enough, only records what there is.
pub proof fn law_nothing_to_resize(j: ResizeJob)
    requires
        !j.plan.restarts(),
        !j.plan.disk_requested,
        disk_step(j.plan, disk_size(None, j.recorded_disk)) == DiskStep::Keep,
    ensures
        then_hardware(idle(), j, None) == resized(idle(), j),
{
}

/// Whatever happens, the hypervisor is told the processor and the memory of the
/// plan, the disk is only ever grown, to the size of the plan, and what is recorded
/// is the plan; a machine is restarted only where its processor or memory changes,
/// or as the last try to grow its file system.
#[verifier::rlimit(60)]
pub proof fn law_resize_follows_its_plan(j: ResizeJob, st: Resizing, e: ResizeEvent, i: int)
    requires
        0 <= i < resize_step(j, st, e).len(),
    ensures
        ({
            let a = resize_step(j, st, e)[i];
            let measured = match e {
                ResizeEvent::Measured(Ok(m)) => m,
                ResizeEvent::Begun => None,
                _ => st.measured,
            };
            let size = match measured {
                Some(m) => m as int,
                None => match j.recorded_disk {
                    Some(d) => d as int,
                    None => 0,
                },
            };
            &&& a matches ActV::SetHardware { cores, memory } ==> cores == opt_int(j.plan.set_cores)
                && memory == opt_int(j.plan.set_memory) && (cores is Some || memory is Some)
            &&& a matches ActV::GrowDisk { gib } ==> opt_int(j.plan.disk_gb) == Some(gib) && gib
                > size
            &&& a matches ActV::StoreHardware { memory, cores, disk_gb } ==> memory == opt_int(
                j.plan.memory,
            ) && cores == opt_int(j.plan.cores) && disk_gb == opt_int(j.plan.disk_gb)
            &&& a is RestartVm ==> j.plan.set_cores is Some || j.plan.set_memory is Some
                || e == ResizeEvent::OfflineGrown(false)
            &&& a matches ActV::GrowOffline { vmid } ==> vmid == j.vmid
            &&& a is Fail ==> match e {
                ResizeEvent::Measured(r) => r is Err,
                ResizeEvent::HardwareSet(r) => r is Err,
                ResizeEvent::DiskGrown(r) => r is Err,
                ResizeEvent::Restarted(r) => r is Err,
                _ => false,
            }
        }),
{
}

/// The disk is measured first exactly on the hypervisor that can tell its size.
pub proof fn law_disk_is_measured_first(j: ResizeJob)
    ensures
        resize_started(j).last() is MeasureDisk <==> !(j.kind@
            == "vsphere"@ || j.kind@ == "esxi"@ || j.kind@ == "nutanix"@),
{
    reveal_strlit("vsphere");
    reveal_strlit("esxi");
    reveal_strlit("nutanix");
    assert("vsphere"@.len() == 7);
    assert("esxi"@.len() == 4);
    assert("nutanix"@.len() == 7);
    assert("vsphere"@[0] == 'v' && "nutanix"@[0] == 'n');
}

} // verus!
