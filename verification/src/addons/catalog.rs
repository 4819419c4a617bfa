//! The add-ons that can be installed, and the form of each.
use crate::addons::{
    CERT_MANAGER_ID, CILIUM_LB_ID, INGRESS_ID, INGRESS_IMAGE_TAG, KOS_SCALER_ID,
    KOS_SCALER_IMAGE_TAG, KUBERNETES_DASHBOARD_ID, KUBERNETES_DASHBOARD_IMAGE_TAG,
    KUBERNETES_DASHBOARD_NAMESPACE, NFS_ID,
};
use crate::error::{ApiResult, AppError, ErrorV};
use crate::json::{
    Json, JsonV, arr_view, item_at, items_in, items_len, jobj, lemma_arr_view, opt_view, str_arr,
    str_in, str_of,
};
use crate::text::{cat, has_text, lit, no_texts, put, str_eq, str_trim, texts, trim};
use vstd::prelude::*;
use vstd::string::*;

verus! {

#[derive(Debug, PartialEq, Eq)]
pub struct AddonField {
    pub name: &'static str,
    pub label: &'static str,
    /// text, password or select
    pub kind: &'static str,
    pub required: bool,
    pub placeholder: &'static str,
    pub options: Option<Vec<&'static str>>,
    pub help: &'static str,
}

#[derive(Debug, PartialEq, Eq)]
pub struct AddonCatalogEntry {
    pub id: &'static str,
    pub name: &'static str,
    pub summary: &'static str,
    pub section: &'static str,
    pub fields: Vec<AddonField>,
    pub requires_cni: Option<&'static str>,
}

/// The mathematical form of a field.
#[verifier::ext_equal]
pub ghost struct FieldV {
    pub name: Seq<char>,
    pub label: Seq<char>,
    pub kind: Seq<char>,
    pub required: bool,
    pub placeholder: Seq<char>,
    pub options: Option<Seq<Seq<char>>>,
    pub help: Seq<char>,
}

/// The mathematical form of an entry.
#[verifier::ext_equal]
pub ghost struct EntryV {
    pub id: Seq<char>,
    pub name: Seq<char>,
    pub summary: Seq<char>,
    pub section: Seq<char>,
    pub fields: Seq<FieldV>,
    pub requires_cni: Option<Seq<char>>,
}

/// The texts of a list of string slices.
pub open spec fn slices(v: Seq<&'static str>) -> Seq<Seq<char>> {
    Seq::new(v.len(), |i: int| v[i]@)
}

impl View for AddonField {
    type V = FieldV;

    open spec fn view(&self) -> FieldV {
        FieldV {
            name: self.name@,
            label: self.label@,
            kind: self.kind@,
            required: self.required,
            placeholder: self.placeholder@,
            options: match self.options {
                Some(v) => Some(slices(v@)),
                None => None,
            },
            help: self.help@,
        }
    }
}

/// The forms of a list of fields.
pub open spec fn fields_view(v: Seq<AddonField>) -> Seq<FieldV> {
    Seq::new(v.len(), |i: int| v[i]@)
}

impl View for AddonCatalogEntry {
    type V = EntryV;

    open spec fn view(&self) -> EntryV {
        EntryV {
            id: self.id@,
            name: self.name@,
            summary: self.summary@,
            section: self.section@,
            fields: fields_view(self.fields@),
            requires_cni: match self.requires_cni {
                Some(c) => Some(c@),
                None => None,
            },
        }
    }
}

/// The forms of a list of entries.
pub open spec fn entries_view(v: Seq<AddonCatalogEntry>) -> Seq<EntryV> {
    Seq::new(v.len(), |i: int| v[i]@)
}

fn add_field(v: &mut Vec<AddonField>, f: AddonField)
    ensures
        fields_view(final(v)@) == fields_view(old(v)@).push(f@),
{
    let ghost before = v@;
    v.push(f);
    assert(fields_view(v@) =~= fields_view(before).push(f@));
}

fn add_entry(v: &mut Vec<AddonCatalogEntry>, e: AddonCatalogEntry)
    ensures
        entries_view(final(v)@) == entries_view(old(v)@).push(e@),
{
    let ghost before = v@;
    v.push(e);
    assert(entries_view(v@) =~= entries_view(before).push(e@));
}

fn no_fields() -> (r: Vec<AddonField>)
    ensures
        fields_view(r@) == Seq::<FieldV>::empty(),
{
    let v: Vec<AddonField> = Vec::new();
    assert(fields_view(v@) =~= Seq::<FieldV>::empty());
    v
}

fn one_option(a: &'static str) -> (r: Option<Vec<&'static str>>)
    ensures
        r is Some,
        slices(r->0@) == seq![a@],
{
    let mut v: Vec<&'static str> = Vec::new();
    v.push(a);
    assert(slices(v@) =~= seq![a@]);
    Some(v)
}

fn two_options(a: &'static str, b: &'static str) -> (r: Option<Vec<&'static str>>)
    ensures
        r is Some,
        slices(r->0@) == seq![a@, b@],
{
    let mut v: Vec<&'static str> = Vec::new();
    v.push(a);
    v.push(b);
    assert(slices(v@) =~= seq![a@, b@]);
    Some(v)
}

/// The form of NFS storage.
pub open spec fn nfs_form() -> Seq<FieldV> {
    Seq::<FieldV>::empty().push(
        FieldV {
            name: "server"@,
            label: "NFS server"@,
            kind: "text"@,
            required: true,
            placeholder: "10.1.1.150"@,
            options: None,
            help: "IP or hostname of the NFS export, reachable from every node."@,
        },
    ).push(
        FieldV {
            name: "path"@,
            label: "Export path"@,
            kind: "text"@,
            required: true,
            placeholder: "/mnt/nfs_share"@,
            options: None,
            help: "Exported directory on the NFS server (StorageClass nfs-client)."@,
        },
    )
}

fn nfs_form_fields() -> (r: Vec<AddonField>)
    ensures
        fields_view(r@) == nfs_form(),
{
    let mut v = no_fields();
    add_field(
        &mut v,
        AddonField {
            name: "server",
            label: "NFS server",
            kind: "text",
            required: true,
            placeholder: "10.1.1.150",
            options: None,
            help: "IP or hostname of the NFS export, reachable from every node.",
        },
    );
    add_field(
        &mut v,
        AddonField {
            name: "path",
            label: "Export path",
            kind: "text",
            required: true,
            placeholder: "/mnt/nfs_share",
            options: None,
            help: "Exported directory on the NFS server (StorageClass nfs-client).",
        },
    );
    v
}

/// The form of cert-manager.
pub open spec fn cert_manager_form() -> Seq<FieldV> {
    Seq::<FieldV>::empty().push(
        FieldV {
            name: "provider"@,
            label: "DNS provider"@,
            kind: "select"@,
            required: true,
            placeholder: "cloudflare"@,
            options: Some(seq!["cloudflare"@]),
            help: "ACME DNS-01 solver used to issue certificates."@,
        },
    ).push(
        FieldV {
            name: "email"@,
            label: "ACME email"@,
            kind: "text"@,
            required: true,
            placeholder: "ops@example.com"@,
            options: None,
            help: "Let’s Encrypt account email."@,
        },
    ).push(
        FieldV {
            name: "api_token"@,
            label: "API token"@,
            kind: "password"@,
            required: true,
            placeholder: "Cloudflare API token"@,
            options: None,
            help: "Cloudflare API token with Zone:DNS:Edit on the zones you issue for."@,
        },
    ).push(
        FieldV {
            name: "acme"@,
            label: "ACME environment"@,
            kind: "select"@,
            required: false,
            placeholder: "production"@,
            options: Some(seq!["production"@, "staging"@]),
            help: "Use staging to test issuance without Let’s Encrypt rate limits."@,
        },
    ).push(
        FieldV {
            name: "domain"@,
            label: "Wildcard domain"@,
            kind: "text"@,
            required: false,
            placeholder: "*.vsphere.pertisk.com"@,
            options: None,
            help: "Optional. Issues a Certificate for the apex and *.domain, then reflects the TLS Secret into every namespace."@,
        },
    )
}

fn cert_manager_form_fields() -> (r: Vec<AddonField>)
    ensures
        fields_view(r@) == cert_manager_form(),
{
    let mut v = no_fields();
    add_field(
        &mut v,
        AddonField {
            name: "provider",
            label: "DNS provider",
            kind: "select",
            required: true,
            placeholder: "cloudflare",
            options: one_option("cloudflare"),
            help: "ACME DNS-01 solver used to issue certificates.",
        },
    );
    add_field(
        &mut v,
        AddonField {
            name: "email",
            label: "ACME email",
            kind: "text",
            required: true,
            placeholder: "ops@example.com",
            options: None,
            help: "Let’s Encrypt account email.",
        },
    );
    add_field(
        &mut v,
        AddonField {
            name: "api_token",
            label: "API token",
            kind: "password",
            required: true,
            placeholder: "Cloudflare API token",
            options: None,
            help: "Cloudflare API token with Zone:DNS:Edit on the zones you issue for.",
        },
    );
    add_field(
        &mut v,
        AddonField {
            name: "acme",
            label: "ACME environment",
            kind: "select",
            required: false,
            placeholder: "production",
            options: two_options("production", "staging"),
            help: "Use staging to test issuance without Let’s Encrypt rate limits.",
        },
    );
    add_field(
        &mut v,
        AddonField {
            name: "domain",
            label: "Wildcard domain",
            kind: "text",
            required: false,
            placeholder: "*.vsphere.pertisk.com",
            options: None,
            help: "Optional. Issues a Certificate for the apex and *.domain, then reflects the TLS Secret into every namespace.",
        },
    );
    v
}

/// The form of the Cilium load balancer.
pub open spec fn cilium_lb_form() -> Seq<FieldV> {
    Seq::<FieldV>::empty().push(
        FieldV {
            name: "ipv4"@,
            label: "ELB IPv4"@,
            kind: "text"@,
            required: true,
            placeholder: "10.1.1.50"@,
            options: None,
            help: "IPv4 address or CIDR announced for Service type LoadBalancer (e.g. 10.1.1.50 or 10.1.1.50/32)."@,
        },
    ).push(
        FieldV {
            name: "ipv6"@,
            label: "ELB IPv6"@,
            kind: "text"@,
            required: false,
            placeholder: "2001:db8::1"@,
            options: None,
            help: "IPv6 address or CIDR. Required on dual-stack clusters."@,
        },
    )
}

fn cilium_lb_form_fields() -> (r: Vec<AddonField>)
    ensures
        fields_view(r@) == cilium_lb_form(),
{
    let mut v = no_fields();
    add_field(
        &mut v,
        AddonField {
            name: "ipv4",
            label: "ELB IPv4",
            kind: "text",
            required: true,
            placeholder: "10.1.1.50",
            options: None,
            help: "IPv4 address or CIDR announced for Service type LoadBalancer (e.g. 10.1.1.50 or 10.1.1.50/32).",
        },
    );
    add_field(
        &mut v,
        AddonField {
            name: "ipv6",
            label: "ELB IPv6",
            kind: "text",
            required: false,
            placeholder: "2001:db8::1",
            options: None,
            help: "IPv6 address or CIDR. Required on dual-stack clusters.",
        },
    );
    v
}

/// The form of the ingress.
pub open spec fn ingress_form() -> Seq<FieldV> {
    Seq::<FieldV>::empty().push(
        FieldV {
            name: "image_tag"@,
            label: "Image tag"@,
            kind: "text"@,
            required: true,
            placeholder: INGRESS_IMAGE_TAG@,
            options: None,
            help: "Multi-arch Harbor tag (e.g. v0.1.83). Install pins the cluster arch (linux/arm64 or linux/amd64) so ARM nodes do not pull amd64."@,
        },
    ).push(
        FieldV {
            name: "admin_host"@,
            label: "Admin host"@,
            kind: "text"@,
            required: false,
            placeholder: "admin.ingress.example.com"@,
            options: None,
            help: "Hostname for the viewer admin Ingress. Example: admin.vsphere.pertisk.com. Leave empty to skip."@,
        },
    ).push(
        FieldV {
            name: "tls_secret"@,
            label: "TLS secret"@,
            kind: "select"@,
            required: false,
            placeholder: "none"@,
            options: Some(seq!["none"@]),
            help: "TLS Secret for the admin Ingress (from cert-manager). Choose none for HTTP only."@,
        },
    ).push(
        FieldV {
            name: "admin_password"@,
            label: "Admin password"@,
            kind: "password"@,
            required: false,
            placeholder: "optional"@,
            options: None,
            help: "Management UI password (stored encrypted). Leave blank to keep the current value or chart default."@,
        },
    ).push(
        FieldV {
            name: "registry_user"@,
            label: "Harbor user"@,
            kind: "text"@,
            required: false,
            placeholder: "optional"@,
            options: None,
            help: "Optional. Leave empty — harbor.tools.pertisk.com/pertisk-proxy is public. Set only if you use a private project."@,
        },
    ).push(
        FieldV {
            name: "registry_password"@,
            label: "Harbor password"@,
            kind: "password"@,
            required: false,
            placeholder: "optional"@,
            options: None,
            help: "Optional registry credential (stored encrypted). Not needed for the public Harbor project."@,
        },
    )
}

fn ingress_form_fields() -> (r: Vec<AddonField>)
    ensures
        fields_view(r@) == ingress_form(),
{
    let mut v = no_fields();
    add_field(
        &mut v,
        AddonField {
            name: "image_tag",
            label: "Image tag",
            kind: "text",
            required: true,
            placeholder: INGRESS_IMAGE_TAG,
            options: None,
            help: "Multi-arch Harbor tag (e.g. v0.1.83). Install pins the cluster arch (linux/arm64 or linux/amd64) so ARM nodes do not pull amd64.",
        },
    );
    add_field(
        &mut v,
        AddonField {
            name: "admin_host",
            label: "Admin host",
            kind: "text",
            required: false,
            placeholder: "admin.ingress.example.com",
            options: None,
            help: "Hostname for the viewer admin Ingress. Example: admin.vsphere.pertisk.com. Leave empty to skip.",
        },
    );
    add_field(
        &mut v,
        AddonField {
            name: "tls_secret",
            label: "TLS secret",
            kind: "select",
            required: false,
            placeholder: "none",
            options: one_option("none"),
            help: "TLS Secret for the admin Ingress (from cert-manager). Choose none for HTTP only.",
        },
    );
    add_field(
        &mut v,
        AddonField {
            name: "admin_password",
            label: "Admin password",
            kind: "password",
            required: false,
            placeholder: "optional",
            options: None,
            help: "Management UI password (stored encrypted). Leave blank to keep the current value or chart default.",
        },
    );
    add_field(
        &mut v,
        AddonField {
            name: "registry_user",
            label: "Harbor user",
            kind: "text",
            required: false,
            placeholder: "optional",
            options: None,
            help: "Optional. Leave empty — harbor.tools.pertisk.com/pertisk-proxy is public. Set only if you use a private project.",
        },
    );
    add_field(
        &mut v,
        AddonField {
            name: "registry_password",
            label: "Harbor password",
            kind: "password",
            required: false,
            placeholder: "optional",
            options: None,
            help: "Optional registry credential (stored encrypted). Not needed for the public Harbor project.",
        },
    );
    v
}

/// The form of the dashboard.
pub open spec fn kubernetes_dashboard_form() -> Seq<FieldV> {
    Seq::<FieldV>::empty().push(
        FieldV {
            name: "namespace"@,
            label: "Namespace"@,
            kind: "text"@,
            required: true,
            placeholder: KUBERNETES_DASHBOARD_NAMESPACE@,
            options: None,
            help: "Namespace for the Dashboard Helm release. It is created automatically."@,
        },
    ).push(
        FieldV {
            name: "image_tag"@,
            label: "Image tag"@,
            kind: "text"@,
            required: true,
            placeholder: KUBERNETES_DASHBOARD_IMAGE_TAG@,
            options: None,
            help: "Dashboard image tag from harbor.tools.pertisk.com/pertisksoft/pertisk-kube/web."@,
        },
    ).push(
        FieldV {
            name: "username"@,
            label: "Dashboard user"@,
            kind: "text"@,
            required: true,
            placeholder: "admin"@,
            options: None,
            help: "Username used to sign in to the Dashboard."@,
        },
    ).push(
        FieldV {
            name: "password"@,
            label: "Dashboard password"@,
            kind: "password"@,
            required: true,
            placeholder: "required"@,
            options: None,
            help: "Stored encrypted. Leave blank on update to keep the current password."@,
        },
    ).push(
        FieldV {
            name: "host"@,
            label: "Dashboard host"@,
            kind: "text"@,
            required: false,
            placeholder: "dashboard.example.com"@,
            options: None,
            help: "Hostname for the Dashboard Ingress. Leave empty to disable Ingress."@,
        },
    ).push(
        FieldV {
            name: "tls_secret"@,
            label: "TLS secret"@,
            kind: "select"@,
            required: false,
            placeholder: "none"@,
            options: Some(seq!["none"@]),
            help: "TLS Secret for the Dashboard Ingress (from cert-manager). Choose none for HTTP only."@,
        },
    )
}

fn kubernetes_dashboard_form_fields() -> (r: Vec<AddonField>)
    ensures
        fields_view(r@) == kubernetes_dashboard_form(),
{
    let mut v = no_fields();
    add_field(
        &mut v,
        AddonField {
            name: "namespace",
            label: "Namespace",
            kind: "text",
            required: true,
            placeholder: KUBERNETES_DASHBOARD_NAMESPACE,
            options: None,
            help: "Namespace for the Dashboard Helm release. It is created automatically.",
        },
    );
    add_field(
        &mut v,
        AddonField {
            name: "image_tag",
            label: "Image tag",
            kind: "text",
            required: true,
            placeholder: KUBERNETES_DASHBOARD_IMAGE_TAG,
            options: None,
            help: "Dashboard image tag from harbor.tools.pertisk.com/pertisksoft/pertisk-kube/web.",
        },
    );
    add_field(
        &mut v,
        AddonField {
            name: "username",
            label: "Dashboard user",
            kind: "text",
            required: true,
            placeholder: "admin",
            options: None,
            help: "Username used to sign in to the Dashboard.",
        },
    );
    add_field(
        &mut v,
        AddonField {
            name: "password",
            label: "Dashboard password",
            kind: "password",
            required: true,
            placeholder: "required",
            options: None,
            help: "Stored encrypted. Leave blank on update to keep the current password.",
        },
    );
    add_field(
        &mut v,
        AddonField {
            name: "host",
            label: "Dashboard host",
            kind: "text",
            required: false,
            placeholder: "dashboard.example.com",
            options: None,
            help: "Hostname for the Dashboard Ingress. Leave empty to disable Ingress.",
        },
    );
    add_field(
        &mut v,
        AddonField {
            name: "tls_secret",
            label: "TLS secret",
            kind: "select",
            required: false,
            placeholder: "none",
            options: one_option("none"),
            help: "TLS Secret for the Dashboard Ingress (from cert-manager). Choose none for HTTP only.",
        },
    );
    v
}

/// The form of the scaler.
pub open spec fn kos_scaler_form() -> Seq<FieldV> {
    Seq::<FieldV>::empty().push(
        FieldV {
            name: "username"@,
            label: "Mgmt username"@,
            kind: "text"@,
            required: true,
            placeholder: "admin"@,
            options: None,
            help: "pertisk-mgmt operator or admin. kos-scaler refreshes JWTs from this account."@,
        },
    ).push(
        FieldV {
            name: "password"@,
            label: "Mgmt password"@,
            kind: "password"@,
            required: true,
            placeholder: "required"@,
            options: None,
            help: "Stored encrypted. Leave blank on update to keep the current password."@,
        },
    ).push(
        FieldV {
            name: "min_size"@,
            label: "Worker min"@,
            kind: "text"@,
            required: true,
            placeholder: "2"@,
            options: None,
            help: "Minimum worker count kos-scaler will enforce."@,
        },
    ).push(
        FieldV {
            name: "max_size"@,
            label: "Worker max"@,
            kind: "text"@,
            required: true,
            placeholder: "10"@,
            options: None,
            help: "Maximum workers kos-scaler may add via the management API."@,
        },
    ).push(
        FieldV {
            name: "image_tag"@,
            label: "Image tag"@,
            kind: "text"@,
            required: false,
            placeholder: KOS_SCALER_IMAGE_TAG@,
            options: None,
            help: "Harbor tag for harbor.tools.pertisk.com/pertisksoft/kos-scaler."@,
        },
    ).push(
        FieldV {
            name: "storage_class"@,
            label: "State StorageClass"@,
            kind: "text"@,
            required: false,
            placeholder: "nfs-client"@,
            options: None,
            help: "PVC for scaler event history. Use none to skip persistence (emptyDir)."@,
        },
    ).push(
        FieldV {
            name: "mgmt_url"@,
            label: "Mgmt URL override"@,
            kind: "text"@,
            required: false,
            placeholder: "https://ptkos.example"@,
            options: None,
            help: "Must be reachable from cluster nodes. Leave empty to use this server’s public URL."@,
        },
    )
}

fn kos_scaler_form_fields() -> (r: Vec<AddonField>)
    ensures
        fields_view(r@) == kos_scaler_form(),
{
    let mut v = no_fields();
    add_field(
        &mut v,
        AddonField {
            name: "username",
            label: "Mgmt username",
            kind: "text",
            required: true,
            placeholder: "admin",
            options: None,
            help: "pertisk-mgmt operator or admin. kos-scaler refreshes JWTs from this account.",
        },
    );
    add_field(
        &mut v,
        AddonField {
            name: "password",
            label: "Mgmt password",
            kind: "password",
            required: true,
            placeholder: "required",
            options: None,
            help: "Stored encrypted. Leave blank on update to keep the current password.",
        },
    );
    add_field(
        &mut v,
        AddonField {
            name: "min_size",
            label: "Worker min",
            kind: "text",
            required: true,
            placeholder: "2",
            options: None,
            help: "Minimum worker count kos-scaler will enforce.",
        },
    );
    add_field(
        &mut v,
        AddonField {
            name: "max_size",
            label: "Worker max",
            kind: "text",
            required: true,
            placeholder: "10",
            options: None,
            help: "Maximum workers kos-scaler may add via the management API.",
        },
    );
    add_field(
        &mut v,
        AddonField {
            name: "image_tag",
            label: "Image tag",
            kind: "text",
            required: false,
            placeholder: KOS_SCALER_IMAGE_TAG,
            options: None,
            help: "Harbor tag for harbor.tools.pertisk.com/pertisksoft/kos-scaler.",
        },
    );
    add_field(
        &mut v,
        AddonField {
            name: "storage_class",
            label: "State StorageClass",
            kind: "text",
            required: false,
            placeholder: "nfs-client",
            options: None,
            help: "PVC for scaler event history. Use none to skip persistence (emptyDir).",
        },
    );
    add_field(
        &mut v,
        AddonField {
            name: "mgmt_url",
            label: "Mgmt URL override",
            kind: "text",
            required: false,
            placeholder: "https://ptkos.example",
            options: None,
            help: "Must be reachable from cluster nodes. Leave empty to use this server’s public URL.",
        },
    );
    v
}

/// The catalog of add-ons.
pub open spec fn catalog_entries() -> Seq<EntryV> {
    Seq::<EntryV>::empty().push(
        EntryV {
            id: NFS_ID@,
            name: "NFS storage"@,
            summary: "Dynamic ReadWriteMany volumes via an external NFS export and nfs-subdir-external-provisioner."@,
            section: "cluster"@,
            fields: nfs_form(),
            requires_cni: None,
        },
    ).push(
        EntryV {
            id: CERT_MANAGER_ID@,
            name: "cert-manager"@,
            summary: "Let’s Encrypt ClusterIssuer (Cloudflare DNS-01) and optional wildcard Certificate reflected to all namespaces."@,
            section: "certificates"@,
            fields: cert_manager_form(),
            requires_cni: None,
        },
    ).push(
        EntryV {
            id: CILIUM_LB_ID@,
            name: "Cilium LoadBalancer"@,
            summary: "ELB IPs via CiliumLoadBalancerIPPool and L2 announcements (shown when CNI is Cilium)."@,
            section: "cluster"@,
            fields: cilium_lb_form(),
            requires_cni: Some("cilium"@),
        },
    ).push(
        EntryV {
            id: INGRESS_ID@,
            name: "Pertisk Ingress"@,
            summary: "pertisk-proxy Ingress controller (Helm chart + Harbor image) with a LoadBalancer Service."@,
            section: "ingress"@,
            fields: ingress_form(),
            requires_cni: None,
        },
    ).push(
        EntryV {
            id: KOS_SCALER_ID@,
            name: "KOS scaler"@,
            summary: "Worker-node autoscaler (Helm kos-scaler). Adds and removes Pertisk workers from pending pods and CPU/memory pressure."@,
            section: "autoscaling"@,
            fields: kos_scaler_form(),
            requires_cni: None,
        },
    ).push(
        EntryV {
            id: KUBERNETES_DASHBOARD_ID@,
            name: "Kubernetes Dashboard"@,
            summary: "Pertisk Kubernetes web dashboard (Helm pertisk-kube) for monitoring and managing cluster resources."@,
            section: "dashboard"@,
            fields: kubernetes_dashboard_form(),
            requires_cni: None,
        },
    )
}

/// The catalog of add-ons.
pub fn catalog() -> (r: Vec<AddonCatalogEntry>)
    ensures
        entries_view(r@) == catalog_entries(),
{
    let mut v: Vec<AddonCatalogEntry> = Vec::new();
    assert(entries_view(v@) =~= Seq::<EntryV>::empty());
    add_entry(
        &mut v,
        AddonCatalogEntry {
            id: NFS_ID,
            name: "NFS storage",
            summary: "Dynamic ReadWriteMany volumes via an external NFS export and nfs-subdir-external-provisioner.",
            section: "cluster",
            fields: nfs_form_fields(),
            requires_cni: None,
        },
    );
    add_entry(
        &mut v,
        AddonCatalogEntry {
            id: CERT_MANAGER_ID,
            name: "cert-manager",
            summary: "Let’s Encrypt ClusterIssuer (Cloudflare DNS-01) and optional wildcard Certificate reflected to all namespaces.",
            section: "certificates",
            fields: cert_manager_form_fields(),
            requires_cni: None,
        },
    );
    add_entry(
        &mut v,
        AddonCatalogEntry {
            id: CILIUM_LB_ID,
            name: "Cilium LoadBalancer",
            summary: "ELB IPs via CiliumLoadBalancerIPPool and L2 announcements (shown when CNI is Cilium).",
            section: "cluster",
            fields: cilium_lb_form_fields(),
            requires_cni: Some("cilium"),
        },
    );
    add_entry(
        &mut v,
        AddonCatalogEntry {
            id: INGRESS_ID,
            name: "Pertisk Ingress",
            summary: "pertisk-proxy Ingress controller (Helm chart + Harbor image) with a LoadBalancer Service.",
            section: "ingress",
            fields: ingress_form_fields(),
            requires_cni: None,
        },
    );
    add_entry(
        &mut v,
        AddonCatalogEntry {
            id: KOS_SCALER_ID,
            name: "KOS scaler",
            summary: "Worker-node autoscaler (Helm kos-scaler). Adds and removes Pertisk workers from pending pods and CPU/memory pressure.",
            section: "autoscaling",
            fields: kos_scaler_form_fields(),
            requires_cni: None,
        },
    );
    add_entry(
        &mut v,
        AddonCatalogEntry {
            id: KUBERNETES_DASHBOARD_ID,
            name: "Kubernetes Dashboard",
            summary: "Pertisk Kubernetes web dashboard (Helm pertisk-kube) for monitoring and managing cluster resources.",
            section: "dashboard",
            fields: kubernetes_dashboard_form_fields(),
            requires_cni: None,
        },
    );
    v
}

/// The index of the first entry at or after `i` with an id.
pub open spec fn entry_index(s: Seq<EntryV>, id: Seq<char>, i: int) -> int
    decreases s.len() - i,
{
    if 0 <= i < s.len() && s[i].id != id {
        entry_index(s, id, i + 1)
    } else {
        i
    }
}

/// The entry of an add-on.
pub open spec fn entry_of(id: Seq<char>) -> Option<EntryV> {
    let i = entry_index(catalog_entries(), id, 0);
    if i < catalog_entries().len() {
        Some(catalog_entries()[i])
    } else {
        None
    }
}

/// The entry of an add-on.
pub fn catalog_entry(id: &str) -> (r: ApiResult<AddonCatalogEntry>)
    ensures
        match r {
            Ok(e) => entry_of(id@) == Some(e@),
            Err(e) => entry_of(id@) is None && e@ == ErrorV::BadRequest("unknown addon "@ + id@),
        },
{
    let all = catalog();
    let ghost s = catalog_entries();
    let mut i: usize = 0;
    while i < all.len()
        invariant
            i <= all.len(),
            s == entries_view(all@),
            s == catalog_entries(),
            entry_index(s, id@, 0) == entry_index(s, id@, i as int),
        decreases all.len() - i,
    {
        assert(s[i as int] == all@[i as int]@);
        if str_eq(all[i].id, id) {
            return Ok(take_entry(all, i));
        }
        i += 1;
    }
    Err(AppError::bad(&cat("unknown addon ", id)))
}

fn take_entry(v: Vec<AddonCatalogEntry>, i: usize) -> (r: AddonCatalogEntry)
    requires
        i < v.len(),
    ensures
        r == v@[i as int],
{
    let mut v = v;
    v.swap_remove(i)
}

/// The id of an add-on, given with white space around it.
pub open spec fn known_id(t: Seq<char>) -> bool {
    t == NFS_ID@ || t == CERT_MANAGER_ID@ || t == CILIUM_LB_ID@ || t == INGRESS_ID@ || t
        == KOS_SCALER_ID@ || t == KUBERNETES_DASHBOARD_ID@
}

/// Reads the id of an add-on.
pub fn parse_addon_id(raw: &str) -> (r: ApiResult<String>)
    ensures
        match r {
            Ok(id) => known_id(trim(raw@)) && id@ == trim(raw@),
            Err(e) => !known_id(trim(raw@)) && e@ == ErrorV::BadRequest(
                "unknown addon "@ + trim(raw@),
            ),
        },
{
    let t = str_trim(raw);
    if str_eq(&t, NFS_ID) || str_eq(&t, CERT_MANAGER_ID) || str_eq(&t, CILIUM_LB_ID) || str_eq(
        &t,
        INGRESS_ID,
    ) || str_eq(&t, KOS_SCALER_ID) || str_eq(&t, KUBERNETES_DASHBOARD_ID) {
        Ok(t)
    } else {
        Err(AppError::bad(&cat("unknown addon ", &t)))
    }
}

/// An id is known exactly where the catalog has an entry for it.
pub proof fn law_known_ids_have_entries(id: Seq<char>)
    ensures
        known_id(id) <==> entry_of(id) is Some,
        entry_of(id) is Some ==> entry_of(id)->0.id == id,
{
    let s = catalog_entries();
    reveal_with_fuel(entry_index, 7);
    assert(s.len() == 6);
    assert(s[0].id == NFS_ID@);
    assert(s[1].id == CERT_MANAGER_ID@);
    assert(s[2].id == CILIUM_LB_ID@);
    assert(s[3].id == INGRESS_ID@);
    assert(s[4].id == KOS_SCALER_ID@);
    assert(s[5].id == KUBERNETES_DASHBOARD_ID@);
}

// ---------------------------------------------------------------------------
// Forms as documents
// ---------------------------------------------------------------------------

/// A choice is added once, and `none` is there already.
pub open spec fn with_option(opts: Seq<Seq<char>>, n: Seq<char>) -> Seq<Seq<char>> {
    if n == "none"@ || opts.contains(n) {
        opts
    } else {
        opts.push(n)
    }
}

/// The choices after `n` of the secrets that the cluster has.
pub open spec fn live_options(s: Seq<JsonV>, n: int) -> Seq<Seq<char>>
    decreases n,
{
    if 0 < n <= s.len() {
        match s[n - 1].as_str() {
            Some(t) => with_option(live_options(s, n - 1), t),
            None => live_options(s, n - 1),
        }
    } else {
        seq!["none"@]
    }
}

/// The TLS secrets to choose from: none, those in the cluster, the current one.
pub open spec fn tls_options(live: JsonV, config: JsonV) -> Seq<Seq<char>> {
    let s = items_in(live.get("tls_secrets"@));
    let have = live_options(s, s.len() as int);
    match str_in(config.get("tls_secret"@)) {
        Some(cur) => if trim(cur).len() == 0 {
            have
        } else {
            with_option(have, trim(cur))
        },
        None => have,
    }
}

fn add_option(v: &mut Vec<String>, t: &str)
    ensures
        texts(final(v)@) == with_option(texts(old(v)@), t@),
{
    if !str_eq(t, "none") && !has_text(v, t) {
        put(v, t);
    }
}

fn list_tls_options(live: &Json, config: &Json) -> (r: Vec<String>)
    ensures
        texts(r@) == tls_options(live@, config@),
{
    let o = live.get("tls_secrets");
    let ghost s = items_in(live@.get("tls_secrets"@));
    let n: usize = items_len(o);
    let mut out = no_texts();
    put(&mut out, "none");
    assert(texts(out@) =~= seq!["none"@]);
    let mut i: usize = 0;
    while i < n
        invariant
            i <= n,
            n == s.len(),
            s == items_in(opt_view(o)),
            texts(out@) == live_options(s, i as int),
        decreases n - i,
    {
        match item_at(o, i).as_str() {
            Some(t) => add_option(&mut out, &t),
            None => {},
        }
        i += 1;
    }
    match str_of(config.get("tls_secret")) {
        Some(cur) => {
            let t = str_trim(&cur);
            if !t.is_empty() {
                add_option(&mut out, &t);
            }
        },
        None => {},
    }
    out
}

/// The document of a field, with the choices given.
pub open spec fn field_doc(f: FieldV, options: Option<Seq<Seq<char>>>) -> JsonV {
    let head = jobj().with("name"@, JsonV::Str(f.name)).with("label"@, JsonV::Str(f.label)).with(
        "kind"@,
        JsonV::Str(f.kind),
    ).with("required"@, JsonV::Bool(f.required)).with(
        "placeholder"@,
        JsonV::Str(f.placeholder),
    );
    let body = match options {
        Some(v) => head.with("options"@, str_arr(v)),
        None => head,
    };
    body.with("help"@, JsonV::Str(f.help))
}

/// The document of a field of an add-on: the TLS secret of the ingress and of
/// the dashboard is chosen among those that exist.
pub open spec fn form_field(id: Seq<char>, f: FieldV, live: JsonV, config: JsonV) -> JsonV {
    field_doc(
        f,
        if (id == INGRESS_ID@ || id == KUBERNETES_DASHBOARD_ID@) && f.name == "tls_secret"@ {
            Some(tls_options(live, config))
        } else {
            f.options
        },
    )
}

fn field_json(f: &AddonField, options: Option<&Vec<String>>) -> (r: Json)
    ensures
        r@ == field_doc(
            f@,
            match options {
                Some(v) => Some(texts(v@)),
                None => f@.options,
            },
        ),
{
    let head = Json::object().with("name", Json::text(f.name)).with(
        "label",
        Json::text(f.label),
    ).with("kind", Json::text(f.kind)).with("required", Json::Bool(f.required)).with(
        "placeholder",
        Json::text(f.placeholder),
    );
    let body = match options {
        Some(v) => head.with("options", Json::text_array(v)),
        None => match &f.options {
            Some(v) => head.with("options", Json::text_array(&strings(v))),
            None => head,
        },
    };
    body.with("help", Json::text(f.help))
}

fn strings(v: &Vec<&'static str>) -> (r: Vec<String>)
    ensures
        texts(r@) == slices(v@),
{
    let mut out: Vec<String> = Vec::new();
    let mut i: usize = 0;
    while i < v.len()
        invariant
            i <= v.len(),
            out.len() == i,
            forall|k: int| 0 <= k < i ==> (#[trigger] out@[k])@ == v@[k]@,
        decreases v.len() - i,
    {
        out.push(lit(v[i]));
        i += 1;
    }
    assert(texts(out@) =~= slices(v@));
    out
}

/// The form of an add-on as a document.
pub open spec fn form_doc(e: EntryV, live: JsonV, config: JsonV) -> JsonV {
    JsonV::Arr(Seq::new(e.fields.len(), |i: int| form_field(e.id, e.fields[i], live, config)))
}

/// The form of an add-on as a document.
pub fn catalog_fields_json(entry: &AddonCatalogEntry, live: &Json, config: &Json) -> (r: Json)
    ensures
        r@ == form_doc(entry@, live@, config@),
{
    let choices = list_tls_options(live, config);
    let has_tls = str_eq(entry.id, INGRESS_ID) || str_eq(entry.id, KUBERNETES_DASHBOARD_ID);
    let mut out: Vec<Json> = Vec::new();
    let mut i: usize = 0;
    while i < entry.fields.len()
        invariant
            i <= entry.fields.len(),
            out.len() == i,
            texts(choices@) == tls_options(live@, config@),
            has_tls == (entry@.id == INGRESS_ID@ || entry@.id == KUBERNETES_DASHBOARD_ID@),
            forall|k: int|
                0 <= k < i ==> #[trigger] out@[k].view() == form_field(
                    entry@.id,
                    entry@.fields[k],
                    live@,
                    config@,
                ),
        decreases entry.fields.len() - i,
    {
        let f = &entry.fields[i];
        assert(entry@.fields[i as int] == f@);
        if has_tls && str_eq(f.name, "tls_secret") {
            out.push(field_json(f, Some(&choices)));
        } else {
            out.push(field_json(f, None));
        }
        i += 1;
    }
    proof {
        lemma_arr_view(out@);
        let want = form_doc(entry@, live@, config@)->Arr_0;
        assert forall|k: int| 0 <= k < want.len() implies arr_view(out@)[k] == want[k] by {
            assert(out@[k].view() == form_field(entry@.id, entry@.fields[k], live@, config@));
        }
        assert(arr_view(out@) =~= want);
    }
    Json::array(out)
}

} // verus!
