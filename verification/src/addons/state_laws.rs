//! How the state of an add-on is told from what is stored and what the cluster
//! holds, and what its installation stores.
use crate::addons::catalog::{EntryV, catalog_entries};
use crate::addons::install::{
    SecretV, cert_plan, cilium_api, helm_install, install_plan, job_secret, scaler_plan,
};
use crate::addons::live::{
    CertManagerObjects, IngressObjects, cert_manager_report, cidrs_of, dashboard_report, env_text,
    first_colon, has_addresses, ingress_report, lb_addresses, lb_of, lb_report, list_pull_fault,
    nfs_report, own_view, pull_fault, ready_in, scaler_report, storage_api, tls_names, up,
};
use crate::addons::names::{dns_names, name_ok};
use crate::addons::render::scaler_endpoint;
use crate::addons::secrets::ingress_secret_texts;
use crate::addons::settings::{
    cert_faults, dashboard_faults, ingress_faults, ingress_stored, lb_faults, lb_stored, loose_text,
    member_text, nfs_faults, nfs_stored, public_cert, public_lb, public_nfs, scaler_faults,
    scaler_stored,
};
use crate::addons::status::{
    LiveState, ReviewContextV, SummaryInput, cert_submitted, dashboard_submitted, has_secret,
    live_doc, merged_status, offered, review, row_error, row_status, summary_doc, summary_review,
};
use crate::config::unusable_host;
use crate::crypto::{CryptoError, decrypted};
use crate::json::{Json, JsonV, items_in, nat_or, opt_str_json, str_arr, str_in};
use crate::text::{join, lemma_trim_ends, lemma_trimmed, trim};
use vstd::prelude::*;

verus! {

/// The state of an add-on: being installed while a job runs, or until its row says
/// otherwise; in error where the last installation failed and the cluster has
/// nothing to show for it; installed exactly where the cluster has it.
pub proof fn law_state_of_an_addon(
    stored: Option<Seq<char>>,
    installed: bool,
    partial: bool,
    job: bool,
)
    ensures
        ({
            let s = merged_status(stored, installed, partial, job);
            &&& s == "installing"@ <==> job || stored == Some("installing"@)
            &&& s == "installed"@ <==> !job && stored != Some("installing"@) && installed
            &&& s == "error"@ <==> !job && stored == Some("error"@) && !installed
            &&& !job && partial && !installed && (stored is None || stored == Some("installed"@))
                ==> s == "partial"@
            &&& !job && !partial && !installed && stored == Some("installed"@) ==> s == "missing"@
            &&& !job && !partial && !installed && stored is None ==> s == "not_installed"@
        }),
{
    reveal_strlit("installing");
    reveal_strlit("error");
    reveal_strlit("installed");
    reveal_strlit("partial");
    reveal_strlit("missing");
    reveal_strlit("not_installed");
    assert("installing"@.len() == 10);
    assert("error"@.len() == 5);
    assert("installed"@.len() == 9);
    assert("partial"@.len() == 7);
    assert("missing"@.len() == 7);
    assert("not_installed"@.len() == 13);
    assert("partial"@[0] == 'p' && "missing"@[0] == 'm');
}

/// Settings that a user hands in are held against the faults of their own add-on.
pub proof fn law_review_of_handed_in_settings(stored: JsonV, body: JsonV, c: ReviewContextV)
    ensures
        review("nfs"@, stored, Some(body), c).errors == nfs_faults(nfs_stored(body)),
        review("nfs"@, stored, Some(body), c).probe is Some <==> nfs_faults(
            nfs_stored(body),
        ).len() == 0,
        review("nfs"@, stored, Some(body), c).probe is Some ==> review(
            "nfs"@,
            stored,
            Some(body),
            c,
        ).probe == Some(trim(nfs_stored(body).server)),
        review("cilium-lb"@, stored, Some(body), c).errors.len() == 0 <==> c.cni == "cilium"@
            && lb_faults(lb_stored(body), c.network_mode).len() == 0,
        review("cert-manager"@, stored, Some(body), c).errors == cert_faults(
            cert_submitted(body),
            trim(member_text(body, "api_token"@)).len() > 0 || !c.token_set,
        ),
        review("ingress"@, stored, Some(body), c).errors == ingress_faults(
            ingress_stored(body),
            trim(ingress_stored(body).registry_user).len() > 0 && trim(
                ingress_stored(body).registry_password,
            ).len() == 0 && !c.registry_set,
        ),
{
    reveal_strlit("nfs");
    reveal_strlit("cilium-lb");
    reveal_strlit("cert-manager");
    reveal_strlit("ingress");
    reveal_strlit("kos-scaler");
    reveal_strlit("kubernetes-dashboard");
    assert("nfs"@.len() == 3);
    assert("cilium-lb"@.len() == 9);
    assert("cert-manager"@.len() == 12);
    assert("ingress"@.len() == 7);
    assert("kos-scaler"@.len() == 10);
    assert("kubernetes-dashboard"@.len() == 20);
}

/// The autoscaler and the dashboard ask for a password exactly where none is given
/// and none is stored; the autoscaler warns of an address that machines cannot
/// reach.
pub proof fn law_review_asks_for_passwords(stored: JsonV, body: JsonV, c: ReviewContextV)
    ensures
        ({
            let s = review("kos-scaler"@, stored, Some(body), c);
            let cfg = scaler_stored(body);
            &&& s.errors == scaler_faults(cfg, trim(cfg.password).len() == 0 && !c.token_set)
            &&& s.warnings.len() > 0 <==> scaler_endpoint(cfg, c.public_url).len() == 0
                || unusable_host(scaler_endpoint(cfg, c.public_url))
            &&& review("kubernetes-dashboard"@, stored, Some(body), c).errors == dashboard_faults(
                dashboard_submitted(body),
                !c.token_set,
            )
        }),
{
    reveal_strlit("nfs");
    reveal_strlit("cilium-lb");
    reveal_strlit("cert-manager");
    reveal_strlit("ingress");
    reveal_strlit("kos-scaler");
    reveal_strlit("kubernetes-dashboard");
    assert("nfs"@.len() == 3);
    assert("cilium-lb"@.len() == 9);
    assert("cert-manager"@.len() == 12);
    assert("ingress"@.len() == 7);
    assert("kos-scaler"@.len() == 10);
    assert("kubernetes-dashboard"@.len() == 20);
}

/// What is shown of an add-on: it is in order exactly where nothing is wrong with
/// its settings, and each of its members is what it is called.
#[verifier::rlimit(60)]
pub proof fn law_shown_addon(
    entry: EntryV,
    input: SummaryInput,
    probe: Option<Seq<char>>,
    live: JsonV,
    job: Option<Seq<char>>,
)
    ensures
        ({
            let d = summary_doc(entry, input, probe, live, job);
            let rv = summary_review(entry.id, input);
            &&& d.get("id"@) == Some(JsonV::Str(entry.id))
            &&& d.get("name"@) == Some(JsonV::Str(entry.name))
            &&& d.get("ok"@) == Some(JsonV::Bool(rv.errors.len() == 0))
            &&& d.get("errors"@) == Some(str_arr(rv.errors))
            &&& d.get("config"@) == Some(rv.config)
            &&& d.get("live"@) == Some(live)
            &&& d.get("cluster_cni"@) == Some(JsonV::Str(input.cni@))
            &&& d.get("network_mode"@) == Some(JsonV::Str(input.network_mode@))
            &&& d.get("cluster_arch"@) == Some(JsonV::Str(input.arch@))
            &&& d.get("status"@) == Some(
                JsonV::Str(
                    merged_status(
                        row_status(input.row),
                        live.get("installed"@) == Some(JsonV::Bool(true)),
                        live.get("partial"@) == Some(JsonV::Bool(true)),
                        job is Some,
                    ),
                ),
            )
            &&& d.get("job_id"@) == Some(
                match job {
                    Some(t) => JsonV::Str(t),
                    None => JsonV::Null,
                },
            )
            &&& d.get("error"@) == Some(
                match row_error(input.row) {
                    Some(t) => JsonV::Str(t),
                    None => JsonV::Null,
                },
            )
            &&& entry.id != "ingress"@ ==> d.get("token_set"@) == Some(
                JsonV::Bool(has_secret(input.row)),
            )
        }),
{
    broadcast use {crate::json::lemma_get_with, crate::json::lemma_get_empty};

    reveal_strlit("id");
    reveal_strlit("name");
    reveal_strlit("summary");
    reveal_strlit("section");
    reveal_strlit("fields");
    reveal_strlit("status");
    reveal_strlit("ok");
    reveal_strlit("errors");
    reveal_strlit("warnings");
    reveal_strlit("config");
    reveal_strlit("token_set");
    reveal_strlit("registry_set");
    reveal_strlit("job_id");
    reveal_strlit("error");
    reveal_strlit("installed_at");
    reveal_strlit("updated_at");
    reveal_strlit("live");
    reveal_strlit("cluster_cni");
    reveal_strlit("network_mode");
    reveal_strlit("cluster_arch");
    reveal_strlit("cert_manager_version");
    reveal_strlit("ingress_image");
    assert("id"@.len() == 2);
    assert("name"@.len() == 4);
    assert("summary"@.len() == 7);
    assert("section"@.len() == 7);
    assert("fields"@.len() == 6);
    assert("status"@.len() == 6);
    assert("ok"@.len() == 2);
    assert("errors"@.len() == 6);
    assert("warnings"@.len() == 8);
    assert("config"@.len() == 6);
    assert("token_set"@.len() == 9);
    assert("registry_set"@.len() == 12);
    assert("job_id"@.len() == 6);
    assert("error"@.len() == 5);
    assert("installed_at"@.len() == 12);
    assert("updated_at"@.len() == 10);
    assert("live"@.len() == 4);
    assert("cluster_cni"@.len() == 11);
    assert("network_mode"@.len() == 12);
    assert("cluster_arch"@.len() == 12);
    assert("cert_manager_version"@.len() == 20);
    assert("ingress_image"@.len() == 13);
    assert("id"@[0] == 'i' && "ok"@[0] == 'o');
    assert("name"@[0] == 'n' && "live"@[0] == 'l');
    assert("summary"@[1] == 'u' && "section"@[1] == 'e');
    assert("fields"@[0] == 'f' && "status"@[0] == 's');
    assert("fields"@[0] == 'f' && "errors"@[0] == 'e');
    assert("fields"@[0] == 'f' && "config"@[0] == 'c');
    assert("fields"@[0] == 'f' && "job_id"@[0] == 'j');
    assert("status"@[0] == 's' && "errors"@[0] == 'e');
    assert("status"@[0] == 's' && "config"@[0] == 'c');
    assert("status"@[0] == 's' && "job_id"@[0] == 'j');
    assert("errors"@[0] == 'e' && "config"@[0] == 'c');
    assert("errors"@[0] == 'e' && "job_id"@[0] == 'j');
    assert("config"@[0] == 'c' && "job_id"@[0] == 'j');
    assert("registry_set"@[0] == 'r' && "installed_at"@[0] == 'i');
    assert("registry_set"@[0] == 'r' && "network_mode"@[0] == 'n');
    assert("registry_set"@[0] == 'r' && "cluster_arch"@[0] == 'c');
    assert("installed_at"@[0] == 'i' && "network_mode"@[0] == 'n');
    assert("installed_at"@[0] == 'i' && "cluster_arch"@[0] == 'c');
    assert("network_mode"@[0] == 'n' && "cluster_arch"@[0] == 'c');
}

/// An add-on is offered exactly where it needs no network of its own kind, or the
/// cluster has that one.
pub proof fn law_offered_addons(s: Seq<EntryV>, cni: Seq<char>, n: int, k: int)
    requires
        0 <= n <= s.len(),
    ensures
        0 <= k < n && (s[k].requires_cni is None || s[k].requires_cni->0 == cni) ==> offered(
            s,
            cni,
            n,
        ).contains(s[k].id),
        0 <= k < offered(s, cni, n).len() ==> exists|i: int|
            0 <= i < n && offered(s, cni, n)[k] == (#[trigger] s[i]).id && (s[i].requires_cni
                is None || s[i].requires_cni->0 == cni),
    decreases n,
{
    if n > 0 {
        law_offered_addons(s, cni, n - 1, k);
        let b = offered(s, cni, n - 1);
        let r = offered(s, cni, n);
        if r.len() > b.len() {
            assert(r[r.len() - 1] == s[n - 1].id);
        }
        if 0 <= k < n - 1 && b.contains(s[k].id) {
            let i = choose|i: int| 0 <= i < b.len() && b[i] == s[k].id;
            assert(r[i] == s[k].id);
        }
        if 0 <= k < r.len() {
            if k < b.len() {
                assert(r[k] == b[k]);
            } else {
                assert(s[n - 1].requires_cni is None || s[n - 1].requires_cni->0 == cni);
            }
        }
    }
}

/// The load balancer of Cilium alone needs that network.
pub proof fn law_only_cilium_needs_its_network(i: int)
    requires
        0 <= i < catalog_entries().len(),
    ensures
        catalog_entries()[i].requires_cni is Some <==> catalog_entries()[i].id == "cilium-lb"@,
        catalog_entries()[i].requires_cni is Some ==> catalog_entries()[i].requires_cni->0
            == "cilium"@,
{
    reveal_strlit("nfs");
    reveal_strlit("cilium-lb");
    reveal_strlit("cert-manager");
    reveal_strlit("ingress");
    reveal_strlit("kos-scaler");
    reveal_strlit("kubernetes-dashboard");
    assert("nfs"@.len() == 3);
    assert("cilium-lb"@.len() == 9);
    assert("cert-manager"@.len() == 12);
    assert("ingress"@.len() == 7);
    assert("kos-scaler"@.len() == 10);
    assert("kubernetes-dashboard"@.len() == 20);
}

/// A workload is up exactly where it wants a replica and has as many ready as it
/// wants; one that is not there is not up.
pub proof fn law_workload_is_up(j: JsonV)
    ensures
        ({
            let want = match j.get2("status"@, "replicas"@) {
                Some(x) => nat_or(x.as_nat(), 1),
                None => 1,
            };
            let have = match j.get2("status"@, "readyReplicas"@) {
                Some(x) => nat_or(x.as_nat(), 0),
                None => 0,
            };
            &&& up(Some(j)) <==> want > 0 && have >= want
            &&& !up(None)
        }),
{
}

/// Storage is installed where its provisioner and its class are there, and partly
/// where anything is.
pub proof fn law_report_on_storage(
    deploy: Option<JsonV>,
    sc: Option<JsonV>,
    ds: Option<JsonV>,
)
    ensures
        ({
            let r = nfs_report(deploy, sc, ds);
            &&& r.get("installed"@) == Some(JsonV::Bool(deploy is Some && sc is Some))
            &&& r.get("partial"@) == Some(JsonV::Bool(deploy is Some || sc is Some || ds is Some))
            &&& r.get("provisioner_ready"@) == Some(JsonV::Bool(deploy is Some && up(deploy)))
            &&& r.get("storage_class"@) == Some(JsonV::Bool(sc is Some))
            &&& r.get("nfs_modules"@) == Some(JsonV::Bool(ds is Some))
            &&& r.get("server"@) == Some(opt_str_json(env_text(deploy, "NFS_SERVER"@)))
            &&& r.get("path"@) == Some(opt_str_json(env_text(deploy, "NFS_PATH"@)))
        }),
{
    broadcast use {crate::json::lemma_get_with, crate::json::lemma_get_empty};

    reveal_strlit("installed");
    reveal_strlit("partial");
    reveal_strlit("provisioner_ready");
    reveal_strlit("storage_class");
    reveal_strlit("nfs_modules");
    reveal_strlit("nfs_modules_ready");
    reveal_strlit("server");
    reveal_strlit("path");
    assert("installed"@.len() == 9);
    assert("partial"@.len() == 7);
    assert("provisioner_ready"@.len() == 17);
    assert("storage_class"@.len() == 13);
    assert("nfs_modules"@.len() == 11);
    assert("nfs_modules_ready"@.len() == 17);
    assert("server"@.len() == 6);
    assert("path"@.len() == 4);
    assert("provisioner_ready"@[0] == 'p' && "nfs_modules_ready"@[0] == 'n');
}

/// Certificates are installed where the controller is there; what is ready is told
/// of each part by itself.
#[verifier::rlimit(40)]
pub proof fn law_report_on_certificates(o: CertManagerObjects, domain: Seq<char>)
    ensures
        ({
            let r = cert_manager_report(o, domain);
            &&& r.get("installed"@) == Some(JsonV::Bool(o.deploy is Some))
            &&& r.get("partial"@) == Some(
                JsonV::Bool(o.deploy is Some || o.issuer is Some || o.secret is Some),
            )
            &&& r.get("controller_ready"@) == Some(JsonV::Bool(up(own_view(o.deploy))))
            &&& r.get("webhook_ready"@) == Some(JsonV::Bool(up(own_view(o.webhook))))
            &&& r.get("issuer"@) == Some(JsonV::Bool(o.issuer is Some))
            &&& r.get("issuer_ready"@) == Some(JsonV::Bool(ready_in(own_view(o.issuer))))
            &&& r.get("token_secret"@) == Some(JsonV::Bool(o.secret is Some))
            &&& r.get("reflector"@) == Some(JsonV::Bool(o.reflector is Some))
            &&& r.get("reflector_ready"@) == Some(JsonV::Bool(up(own_view(o.reflector))))
            &&& r.get("certificate"@) == Some(JsonV::Bool(o.certificate is Some))
            &&& r.get("certificate_ready"@) == Some(JsonV::Bool(ready_in(own_view(o.certificate))))
            &&& r.get("tls_secret_present"@) == Some(JsonV::Bool(o.tls_secret is Some))
            &&& r.get("dns_names"@) == Some(str_arr(dns_names(domain)))
        }),
{
    broadcast use {crate::json::lemma_get_with, crate::json::lemma_get_empty};

    reveal_strlit("installed");
    reveal_strlit("partial");
    reveal_strlit("controller_ready");
    reveal_strlit("webhook_ready");
    reveal_strlit("issuer");
    reveal_strlit("issuer_ready");
    reveal_strlit("token_secret");
    reveal_strlit("version");
    reveal_strlit("reflector");
    reveal_strlit("reflector_ready");
    reveal_strlit("certificate");
    reveal_strlit("certificate_ready");
    reveal_strlit("tls_secret");
    reveal_strlit("tls_secret_present");
    reveal_strlit("dns_names");
    assert("installed"@.len() == 9);
    assert("partial"@.len() == 7);
    assert("controller_ready"@.len() == 16);
    assert("webhook_ready"@.len() == 13);
    assert("issuer"@.len() == 6);
    assert("issuer_ready"@.len() == 12);
    assert("token_secret"@.len() == 12);
    assert("version"@.len() == 7);
    assert("reflector"@.len() == 9);
    assert("reflector_ready"@.len() == 15);
    assert("certificate"@.len() == 11);
    assert("certificate_ready"@.len() == 17);
    assert("tls_secret"@.len() == 10);
    assert("tls_secret_present"@.len() == 18);
    assert("dns_names"@.len() == 9);
    assert("installed"@[0] == 'i' && "reflector"@[0] == 'r');
    assert("installed"@[0] == 'i' && "dns_names"@[0] == 'd');
    assert("reflector"@[0] == 'r' && "dns_names"@[0] == 'd');
    assert("partial"@[0] == 'p' && "version"@[0] == 'v');
    assert("issuer_ready"@[0] == 'i' && "token_secret"@[0] == 't');
}

/// The load balancer is installed where both its pool and its policy are there,
/// and partly where one is.
pub proof fn law_report_on_the_balancer(pool: Option<JsonV>, l2: Option<JsonV>)
    ensures
        ({
            let r = lb_report(pool, l2);
            &&& r.get("installed"@) == Some(JsonV::Bool(pool is Some && l2 is Some))
            &&& r.get("partial"@) == Some(JsonV::Bool(pool is Some || l2 is Some))
            &&& r.get("pool"@) == Some(JsonV::Bool(pool is Some))
            &&& r.get("l2"@) == Some(JsonV::Bool(l2 is Some))
            &&& r.get("ipv4"@) == Some(opt_str_json(first_colon(cidrs_of(pool), false, 0)))
            &&& r.get("ipv6"@) == Some(opt_str_json(first_colon(cidrs_of(pool), true, 0)))
        }),
{
    broadcast use {crate::json::lemma_get_with, crate::json::lemma_get_empty};

    reveal_strlit("installed");
    reveal_strlit("partial");
    reveal_strlit("pool");
    reveal_strlit("l2");
    reveal_strlit("ipv4");
    reveal_strlit("ipv6");
    reveal_strlit("cidrs");
    assert("installed"@.len() == 9);
    assert("partial"@.len() == 7);
    assert("pool"@.len() == 4);
    assert("l2"@.len() == 2);
    assert("ipv4"@.len() == 4);
    assert("ipv6"@.len() == 4);
    assert("cidrs"@.len() == 5);
    assert("pool"@[0] == 'p' && "ipv4"@[0] == 'i');
    assert("pool"@[0] == 'p' && "ipv6"@[0] == 'i');
    assert("ipv4"@[3] == '4' && "ipv6"@[3] == '6');
}

/// Of the addresses of a pool, the one that is shown is the first of its family.
pub proof fn law_first_of_a_family(s: Seq<Seq<char>>, colon: bool, i: int)
    requires
        0 <= i <= s.len(),
    ensures
        match first_colon(s, colon, i) {
            Some(t) => t.contains(':') == colon && exists|k: int|
                i <= k < s.len() && #[trigger] s[k] == t,
            None => forall|k: int| i <= k < s.len() ==> (#[trigger] s[k]).contains(':') != colon,
        },
    decreases s.len() - i,
{
    if i < s.len() {
        law_first_of_a_family(s, colon, i + 1);
        if s[i].contains(':') == colon {
            assert(s[i] == first_colon(s, colon, i)->0);
        }
    }
}

/// The ingress is installed where its controller and its service are there; the
/// addresses that are shown are those of the service, by family.
#[verifier::rlimit(40)]
pub proof fn law_report_on_the_ingress(o: IngressObjects, names: Seq<Seq<char>>)
    ensures
        ({
            let r = ingress_report(o, names);
            &&& r.get("installed"@) == Some(JsonV::Bool(o.deploy is Some && o.svc is Some))
            &&& r.get("partial"@) == Some(
                JsonV::Bool(o.deploy is Some || o.svc is Some || o.class is Some),
            )
            &&& r.get("controller_ready"@) == Some(JsonV::Bool(up(own_view(o.deploy))))
            &&& r.get("ingress_class"@) == Some(JsonV::Bool(o.class is Some))
            &&& r.get("lb_ipv4"@) == Some(JsonV::Str(join(lb_of(own_view(o.svc)).0, ", "@)))
            &&& r.get("lb_ipv6"@) == Some(JsonV::Str(join(lb_of(own_view(o.svc)).1, ", "@)))
            &&& r.get("gateway_api"@) == Some(JsonV::Bool(o.gateway_api))
            &&& r.get("pull_secret"@) == Some(JsonV::Bool(o.secret is Some))
            &&& r.get("pull_error"@) == Some(opt_str_json(list_pull_fault(own_view(o.pods))))
            &&& r.get("tls_secrets"@) == Some(str_arr(names))
        }),
{
    broadcast use {crate::json::lemma_get_with, crate::json::lemma_get_empty};

    reveal_strlit("installed");
    reveal_strlit("partial");
    reveal_strlit("controller_ready");
    reveal_strlit("ingress_class");
    reveal_strlit("image");
    reveal_strlit("lb_ipv4");
    reveal_strlit("lb_ipv6");
    reveal_strlit("gateway_api");
    reveal_strlit("pull_secret");
    reveal_strlit("pull_error");
    reveal_strlit("admin_host");
    reveal_strlit("admin_tls");
    reveal_strlit("admin_tls_secret");
    reveal_strlit("tls_secrets");
    assert("installed"@.len() == 9);
    assert("partial"@.len() == 7);
    assert("controller_ready"@.len() == 16);
    assert("ingress_class"@.len() == 13);
    assert("image"@.len() == 5);
    assert("lb_ipv4"@.len() == 7);
    assert("lb_ipv6"@.len() == 7);
    assert("gateway_api"@.len() == 11);
    assert("pull_secret"@.len() == 11);
    assert("pull_error"@.len() == 10);
    assert("admin_host"@.len() == 10);
    assert("admin_tls"@.len() == 9);
    assert("admin_tls_secret"@.len() == 16);
    assert("tls_secrets"@.len() == 11);
    assert("installed"@[0] == 'i' && "admin_tls"@[0] == 'a');
    assert("partial"@[0] == 'p' && "lb_ipv4"@[0] == 'l');
    assert("partial"@[0] == 'p' && "lb_ipv6"@[0] == 'l');
    assert("lb_ipv4"@[6] == '4' && "lb_ipv6"@[6] == '6');
    assert("controller_ready"@[0] == 'c' && "admin_tls_secret"@[0] == 'a');
    assert("gateway_api"@[0] == 'g' && "pull_secret"@[0] == 'p');
    assert("gateway_api"@[0] == 'g' && "tls_secrets"@[0] == 't');
    assert("pull_secret"@[0] == 'p' && "tls_secrets"@[0] == 't');
    assert("pull_error"@[0] == 'p' && "admin_host"@[0] == 'a');
}

/// An address of a service is shown with its own family.
pub proof fn law_addresses_of_a_service(s: Seq<JsonV>, n: int, k: int, ip: Seq<char>)
    requires
        0 <= k < n <= s.len(),
        s[k].get("ip"@) == Some(JsonV::Str(ip)),
    ensures
        ip.contains(':') ==> lb_addresses(s, n).1.contains(ip),
        !ip.contains(':') ==> lb_addresses(s, n).0.contains(ip),
    decreases n,
{
    let (a4, a6) = lb_addresses(s, n - 1);
    let (r4, r6) = lb_addresses(s, n);
    if k < n - 1 {
        law_addresses_of_a_service(s, n - 1, k, ip);
        if ip.contains(':') {
            let i = choose|i: int| 0 <= i < a6.len() && a6[i] == ip;
            assert(r6[i] == ip);
        } else {
            let i = choose|i: int| 0 <= i < a4.len() && a4[i] == ip;
            assert(r4[i] == ip);
        }
    } else {
        if ip.contains(':') {
            assert(r6[a6.len() as int] == ip);
        } else {
            assert(r4[a4.len() as int] == ip);
        }
    }
}

/// An image that cannot be pulled is told with what the cluster says of it.
pub proof fn law_images_that_cannot_be_pulled(cs: JsonV, w: JsonV, reason: Seq<char>, m: Seq<char>)
    requires
        cs.get2("state"@, "waiting"@) == Some(w),
        w.get("reason"@) == Some(JsonV::Str(reason)),
    ensures
        pull_fault(cs) is Some <==> reason == "ErrImagePull"@ || reason == "ImagePullBackOff"@,
        pull_fault(cs) is Some && w.get("message"@) == Some(JsonV::Str(m)) ==> pull_fault(cs)
            == Some(m),
        pull_fault(cs) is Some && w.get("message"@) is None ==> pull_fault(cs) == Some(reason),
{
}

/// The secrets that may be chosen are those of certificates, by their type.
pub proof fn law_secrets_that_may_be_chosen(s: Seq<JsonV>, n: int, k: int, name: Seq<char>)
    requires
        0 <= n <= s.len(),
    ensures
        0 <= k < n && s[k].get("type"@) == Some(JsonV::Str("kubernetes.io/tls"@)) && s[k].get2(
            "metadata"@,
            "name"@,
        ) == Some(JsonV::Str(name)) && name_ok(trim(name)) ==> tls_names(s, n).contains(name),
        0 <= k < tls_names(s, n).len() ==> exists|i: int|
            0 <= i < n && (#[trigger] s[i]).get("type"@) == Some(JsonV::Str("kubernetes.io/tls"@))
                && s[i].get2("metadata"@, "name"@) == Some(JsonV::Str(tls_names(s, n)[k])),
    decreases n,
{
    if n > 0 {
        law_secrets_that_may_be_chosen(s, n - 1, k, name);
        let b = tls_names(s, n - 1);
        let r = tls_names(s, n);
        if r.len() > b.len() {
            assert(Some(r[r.len() - 1]) == str_in(s[n - 1].get2("metadata"@, "name"@)));
        }
        if 0 <= k < n - 1 && b.contains(name) {
            let i = choose|i: int| 0 <= i < b.len() && b[i] == name;
            assert(r[i] == name);
        }
        if 0 <= k < n && r.len() > b.len() && s[n - 1].get2("metadata"@, "name"@) == Some(
            JsonV::Str(name),
        ) {
            assert(r[r.len() - 1] == name);
        }
        if 0 <= k < r.len() {
            if k < b.len() {
                assert(r[k] == b[k]);
            } else {
                assert(s[n - 1].get("type"@) == Some(JsonV::Str("kubernetes.io/tls"@)));
            }
        }
    }
}

/// An installation is planned exactly where the settings have no fault: storage and
/// the balancer need no secret, and the balancer needs its network.
pub proof fn law_planned_without_a_secret(
    body: JsonV,
    enc: Option<Seq<char>>,
    key: Seq<u8>,
    cni: Seq<char>,
    mode: Seq<char>,
    fresh: Seq<char>,
)
    ensures
        ({
            let n = install_plan("nfs"@, body, enc, key, cni, mode, fresh);
            let l = install_plan("cilium-lb"@, body, enc, key, cni, mode, fresh);
            &&& n is Ok <==> nfs_faults(nfs_stored(body)).len() == 0
            &&& n is Ok ==> n->Ok_0 == (public_nfs(nfs_stored(body)), SecretV::Keep)
            &&& l is Ok <==> cni == "cilium"@ && lb_faults(lb_stored(body), mode).len() == 0
            &&& l is Ok ==> l->Ok_0 == (public_lb(lb_stored(body)), SecretV::Keep)
        }),
{
    reveal_strlit("nfs");
    reveal_strlit("cilium-lb");
    reveal_strlit("cert-manager");
    assert("nfs"@.len() == 3);
    assert("cilium-lb"@.len() == 9);
    assert("cert-manager"@.len() == 12);
}

/// The secret of an installation is the one that is given, else the one that is
/// stored, without white space around what is given.
pub proof fn law_planned_secret(body: JsonV, enc: Seq<char>, key: Seq<u8>, old_secret: Seq<char>)
    requires
        enc.len() > 0,
        decrypted(key, enc) == Ok::<Seq<char>, CryptoError>(old_secret),
        trim(old_secret).len() > 0,
    ensures
        ({
            let token = member_text(body, "api_token"@);
            let password = loose_text(body, "password"@);
            let c = cert_plan(body, Some(enc), key);
            let s = scaler_plan(body, Some(enc), key);
            &&& c is Ok && trim(token).len() > 0 ==> c->Ok_0.1 == SecretV::Token(trim(token))
            &&& c is Ok && trim(token).len() == 0 ==> c->Ok_0.1 == SecretV::Token(trim(old_secret))
            &&& c is Ok ==> c->Ok_0.0 == public_cert(cert_submitted(body))
            &&& c is Ok <==> cert_faults(cert_submitted(body), trim(token).len() > 0).len() == 0
            &&& s is Ok && trim(password).len() > 0 ==> s->Ok_0.1 == SecretV::Token(trim(password))
            &&& s is Ok && trim(password).len() == 0 ==> s->Ok_0.1 == SecretV::Token(old_secret)
            &&& s is Ok <==> scaler_faults(scaler_stored(body), false).len() == 0
        }),
{
    lemma_trim_ends(loose_text(body, "password"@));
    lemma_trimmed(trim(loose_text(body, "password"@)));
    assert(old_secret.len() > 0) by {
        reveal_strlit("");
        if old_secret.len() == 0 {
            assert(trim(old_secret).len() == 0);
        }
    }
}

/// A job gets the secret that is stored for its add-on; without one, those that
/// need it fail, and the ingress goes on without.
pub proof fn law_secret_of_a_job(enc: Seq<char>, key: Seq<u8>, t: Seq<char>)
    requires
        enc.len() > 0,
        decrypted(key, enc) == Ok::<Seq<char>, CryptoError>(t),
    ensures
        job_secret("nfs"@, Some(enc), key) == Ok::<SecretV, Seq<char>>(SecretV::Keep),
        job_secret("cilium-lb"@, Some(enc), key) == Ok::<SecretV, Seq<char>>(SecretV::Keep),
        job_secret("cert-manager"@, Some(enc), key) == Ok::<SecretV, Seq<char>>(SecretV::Token(t)),
        job_secret("kos-scaler"@, Some(enc), key) == Ok::<SecretV, Seq<char>>(SecretV::Token(t)),
        job_secret("ingress"@, Some(enc), key) == Ok::<SecretV, Seq<char>>(
            SecretV::Ingress(ingress_secret_texts(t).0, ingress_secret_texts(t).1),
        ),
        job_secret("cert-manager"@, None, key) is Err,
        job_secret("kos-scaler"@, None, key) is Err,
        job_secret("kubernetes-dashboard"@, None, key) is Err,
        job_secret("ingress"@, None, key) is Ok,
{
    reveal_strlit("nfs");
    reveal_strlit("cilium-lb");
    reveal_strlit("cert-manager");
    reveal_strlit("ingress");
    reveal_strlit("kos-scaler");
    reveal_strlit("kubernetes-dashboard");
    assert("nfs"@.len() == 3);
    assert("cilium-lb"@.len() == 9);
    assert("cert-manager"@.len() == 12);
    assert("ingress"@.len() == 7);
    assert("kos-scaler"@.len() == 10);
    assert("kubernetes-dashboard"@.len() == 20);
}

/// A chart is installed or upgraded under its release, in its namespace, which is
/// made where it is missing, with the values that were written.
pub proof fn law_chart_is_installed(
    release: Seq<char>,
    chart: Seq<char>,
    namespace: Seq<char>,
    values: Seq<char>,
)
    ensures
        helm_install(release, chart, namespace, values) == seq![
            "upgrade"@,
            "--install"@,
            release,
            chart,
            "--repo"@,
            "https://chart.tools.pertisk.com"@,
            "--namespace"@,
            namespace,
            "--create-namespace"@,
            "--timeout"@,
            "5m"@,
            "-f"@,
            values,
        ],
{
    assert(helm_install(release, chart, namespace, values) =~= seq![
        "upgrade"@,
        "--install"@,
        release,
        chart,
        "--repo"@,
        "https://chart.tools.pertisk.com"@,
        "--namespace"@,
        namespace,
        "--create-namespace"@,
        "--timeout"@,
        "5m"@,
        "-f"@,
        values,
    ]);
}

/// The autoscaler is installed where it is up; the dashboard where it is up and has
/// its service; both partly where anything of them is there.
#[verifier::rlimit(40)]
pub proof fn law_report_on_scaler_and_dashboard(
    deploy: Option<JsonV>,
    service: Option<JsonV>,
    ingress: Option<JsonV>,
    namespace: Seq<char>,
    names: Seq<Seq<char>>,
)
    ensures
        ({
            let s = scaler_report(deploy);
            let d = dashboard_report(deploy, service, ingress, namespace, names);
            &&& s.get("installed"@) == Some(JsonV::Bool(up(deploy)))
            &&& s.get("partial"@) == Some(JsonV::Bool(deploy is Some))
            &&& s.get("ready"@) == Some(JsonV::Bool(up(deploy)))
            &&& d.get("installed"@) == Some(JsonV::Bool(up(deploy) && service is Some))
            &&& d.get("partial"@) == Some(JsonV::Bool(deploy is Some || service is Some))
            &&& d.get("ready"@) == Some(JsonV::Bool(up(deploy)))
            &&& d.get("service"@) == Some(JsonV::Bool(service is Some))
            &&& d.get("namespace"@) == Some(JsonV::Str(namespace))
            &&& d.get("tls_secrets"@) == Some(str_arr(names))
        }),
{
    broadcast use {crate::json::lemma_get_with, crate::json::lemma_get_empty};

    reveal_strlit("installed");
    reveal_strlit("partial");
    reveal_strlit("ready");
    reveal_strlit("service");
    reveal_strlit("image");
    reveal_strlit("host");
    reveal_strlit("tls_secret");
    reveal_strlit("namespace");
    reveal_strlit("tls_secrets");
    assert("installed"@.len() == 9);
    assert("partial"@.len() == 7);
    assert("ready"@.len() == 5);
    assert("service"@.len() == 7);
    assert("image"@.len() == 5);
    assert("host"@.len() == 4);
    assert("tls_secret"@.len() == 10);
    assert("namespace"@.len() == 9);
    assert("tls_secrets"@.len() == 11);
    assert("installed"@[0] == 'i' && "namespace"@[0] == 'n');
    assert("partial"@[0] == 'p' && "service"@[0] == 's');
    assert("ready"@[0] == 'r' && "image"@[0] == 'i');
}

/// The state of the cluster is available exactly where it was found; an error says
/// why it was not.
pub proof fn law_state_that_was_found(e: String)
    ensures
        live_doc(LiveState::NotProbed).get("available"@) == Some(JsonV::Bool(false)),
        live_doc(LiveState::Failed(e)).get("available"@) == Some(JsonV::Bool(false)),
        live_doc(LiveState::Failed(e)).get("error"@) == Some(JsonV::Str(e@)),
        forall|j: Json|
            j@ is Obj ==> (#[trigger] live_doc(LiveState::Found(j))).get("available"@) == Some(
                JsonV::Bool(true),
            ),
{
    broadcast use {
        crate::json::lemma_get_with,
        crate::json::lemma_get_empty,
        crate::json::lemma_get_put,
    };

    reveal_strlit("available");
    reveal_strlit("error");
    assert("available"@.len() == 9);
    assert("error"@.len() == 5);
}

/// A service has addresses where some subset of it does.
pub proof fn law_service_has_addresses(j: JsonV, i: int)
    ensures
        ({
            let s = items_in(j.get("subsets"@));
            &&& 0 <= i < s.len() && items_in(s[i].get("addresses"@)).len() > 0 ==> has_addresses(j)
            &&& s.len() == 0 ==> !has_addresses(j)
        }),
{
}

/// The version of an interface is the one that is stored, else the one that is
/// known.
pub proof fn law_stored_interface(crd: JsonV, s: Seq<JsonV>, v: Seq<char>, d: Seq<char>)
    requires
        crd.get2("spec"@, "versions"@) == Some(JsonV::Arr(s)),
    ensures
        s.len() > 0 && s[0].get("storage"@) == Some(JsonV::Bool(true)) && s[0].get("name"@) == Some(
            JsonV::Str(v),
        ) && v.len() > 0 ==> storage_api(crd, d) == "cilium.io/"@ + v,
        s.len() == 0 ==> storage_api(crd, d) == d,
        cilium_api(None) == "cilium.io/v2alpha1"@,
{
}

} // verus!
