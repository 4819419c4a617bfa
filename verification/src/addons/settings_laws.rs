//! Which settings of the add-ons are accepted, what is wrong with the others, and
//! what is shown of them.
use crate::addons::{
    INGRESS_IMAGE_REGISTRY, INGRESS_IMAGE_REPO, INGRESS_IMAGE_TAG, KUBERNETES_DASHBOARD_IMAGE_TAG,
    KUBERNETES_DASHBOARD_NAMESPACE,
};
use crate::addons::document_laws::{is_named, kept_or};
use crate::addons::names::{
    chosen_name, has_break, is_domain, is_email, is_hostname, is_registry_user, is_tag, name_ok,
};
use crate::addons::settings::{
    CertManagerConfigV, CiliumLbConfigV, IngressConfigV, IpFamily, KosScalerConfigV,
    KubernetesDashboardConfigV, NfsConfigV, cert_faults, cert_stored, cidr_chars, dashboard_faults,
    dashboard_password_fault, dashboard_stored, email_fault, ingress_faults, ingress_stored,
    lb_cidr, lb_faults, lb_stored, nfs_faults, nfs_path_fault, nfs_server_fault, nfs_stored, noted,
    noted_if, public_cert, public_dashboard, public_ingress, public_lb, public_nfs, public_scaler,
    scaler_faults, scaler_stored, tag_fault, tls_fault, token_fault,
};
use crate::ip::{parse_ip, show_v4, show_v6};
use crate::json::JsonV;
use crate::num::{dec, parse_int, parse_nat};
use crate::text::{byte_len, has_any, lower, only, split_once, trim};
use vstd::prelude::*;

verus! {

/// A fault is among the others exactly where it is one of them or the new one.
proof fn lemma_noted(a: Seq<Seq<char>>, o: Option<Seq<char>>, q: Seq<char>)
    ensures
        (a + noted(o)).contains(q) <==> a.contains(q) || o == Some(q),
        (a + noted(o)).len() == 0 <==> a.len() == 0 && o is None,
{
    let b = noted(o);
    if a.contains(q) {
        let i = choose|i: int| 0 <= i < a.len() && a[i] == q;
        assert((a + b)[i] == q);
    }
    if o == Some(q) {
        assert((a + b)[a.len() as int] == q);
    }
    if (a + b).contains(q) {
        let i = choose|i: int| 0 <= i < (a + b).len() && (a + b)[i] == q;
        if i < a.len() {
            assert(a[i] == q);
        } else {
            assert(b[i - a.len()] == q);
        }
    }
}

proof fn lemma_noted_if(a: Seq<Seq<char>>, c: bool, m: Seq<char>, q: Seq<char>)
    ensures
        (a + noted_if(c, m)).contains(q) <==> a.contains(q) || (c && q == m),
        (a + noted_if(c, m)).len() == 0 <==> a.len() == 0 && !c,
{
    lemma_noted(
        a,
        if c {
            Some(m)
        } else {
            None
        },
        q,
    );
}

/// Each fault of the settings of the file server comes exactly with its cause.
#[verifier::rlimit(60)]
pub proof fn law_faults_of_nfs(cfg: NfsConfigV)
    ensures
        ({
            let f = nfs_faults(cfg);
            let server = trim(cfg.server);
            let path = trim(cfg.path);
            &&& f.contains("NFS server is required"@) <==> (server.len() == 0)
            &&& f.contains("NFS server must be an IP or hostname"@) <==> (server.len() > 0 && has_any(server, " \n\t/\"'${}\\"@))
            &&& f.contains("NFS server is too long"@) <==> (server.len() > 0 && !has_any(server, " \n\t/\"'${}\\"@) && byte_len(server) > 253)
            &&& f.contains("export path is required"@) <==> (path.len() == 0)
            &&& f.contains("export path must start with /"@) <==> (path.len() > 0 && path[0] != '/')
            &&& f.contains("export path contains invalid characters"@) <==> (path.len() > 0 && path[0] == '/' && !only(path, "/._-"@))
            &&& f.contains("export path is too long"@) <==> (path.len() > 0 && path[0] == '/' && only(path, "/._-"@) && byte_len(path) > 512)
            &&& f.len() == 0 <==> (server.len() > 0 && !has_any(server, " \n\t/\"'${}\\"@) && byte_len(server) <= 253 && path.len() > 0 && path[0] == '/' && only(path, "/._-"@) && byte_len(path) <= 512)
        }),
{
    let server = trim(cfg.server);
    let path = trim(cfg.path);
    reveal_strlit("NFS server is required");
    reveal_strlit("NFS server must be an IP or hostname");
    reveal_strlit("NFS server is too long");
    reveal_strlit("export path is required");
    reveal_strlit("export path must start with /");
    reveal_strlit("export path contains invalid characters");
    reveal_strlit("export path is too long");
    assert("NFS server is required"@.len() == 22);
    assert("NFS server must be an IP or hostname"@.len() == 36);
    assert("NFS server is too long"@.len() == 22);
    assert("export path is required"@.len() == 23);
    assert("export path must start with /"@.len() == 29);
    assert("export path contains invalid characters"@.len() == 39);
    assert("export path is too long"@.len() == 23);
    assert("NFS server is required"@[14] == 'r' && "NFS server is too long"@[14] == 't');
    assert("export path is required"@[15] == 'r' && "export path is too long"@[15] == 't');
    let a0 = Seq::<Seq<char>>::empty();
    let a1 = a0 + noted(nfs_server_fault(server));
    let a2 = a1 + noted(nfs_path_fault(path));
    assert(nfs_faults(cfg) == a2);
    assert forall|q: Seq<char>|
        #![trigger a2.contains(q)]
        a2.contains(q) <==> (nfs_server_fault(server) == Some(q) || nfs_path_fault(path) == Some(q)) by {
        assert(!a0.contains(q));
        lemma_noted(a0, nfs_server_fault(server), q);
        lemma_noted(a1, nfs_path_fault(path), q);
    }
    lemma_noted(a0, nfs_server_fault(server), ""@);
    lemma_noted(a1, nfs_path_fault(path), ""@);
}

/// Each fault of the settings of certificates comes exactly with its cause.
#[verifier::rlimit(60)]
pub proof fn law_faults_of_certificates(cfg: CertManagerConfigV, with_token: bool)
    ensures
        ({
            let f = cert_faults(cfg, with_token);
            let acme = lower(trim(cfg.acme));
            let domain = trim(cfg.domain);
            let email = trim(cfg.email);
            let token = trim(cfg.api_token);
            &&& f.contains("provider must be cloudflare"@) <==> (lower(trim(cfg.provider)) != "cloudflare"@)
            &&& f.contains("ACME email is required"@) <==> (email.len() == 0)
            &&& f.contains("ACME email is invalid"@) <==> (email.len() > 0 && !is_email(email))
            &&& f.contains("acme must be production or staging"@) <==> (acme.len() > 0 && acme != "production"@ && acme != "staging"@)
            &&& f.contains("Cloudflare API token is required"@) <==> (with_token && token.len() == 0)
            &&& f.contains("Cloudflare API token looks too short"@) <==> (with_token && token.len() > 0 && byte_len(token) < 8)
            &&& f.contains("Cloudflare API token contains invalid characters"@) <==> (with_token && token.len() > 0 && byte_len(token) >= 8 && has_break(token))
            &&& f.contains("wildcard domain must be a DNS name (e.g. vsphere.example.com or *.vsphere.example.com)"@) <==> (domain.len() > 0 && !is_domain(domain))
            &&& f.len() == 0 <==> (lower(trim(cfg.provider)) == "cloudflare"@ && email.len() > 0 && is_email(email) && (acme.len() == 0 || acme == "production"@ || acme == "staging"@) && (with_token ==> token.len() > 0 && byte_len(token) >= 8 && !has_break(token)) && (domain.len() == 0 || is_domain(domain)))
        }),
{
    let acme = lower(trim(cfg.acme));
    let domain = trim(cfg.domain);
    let email = trim(cfg.email);
    let token = trim(cfg.api_token);
    reveal_strlit("provider must be cloudflare");
    reveal_strlit("ACME email is required");
    reveal_strlit("ACME email is invalid");
    reveal_strlit("acme must be production or staging");
    reveal_strlit("Cloudflare API token is required");
    reveal_strlit("Cloudflare API token looks too short");
    reveal_strlit("Cloudflare API token contains invalid characters");
    reveal_strlit("wildcard domain must be a DNS name (e.g. vsphere.example.com or *.vsphere.example.com)");
    assert("provider must be cloudflare"@.len() == 27);
    assert("ACME email is required"@.len() == 22);
    assert("ACME email is invalid"@.len() == 21);
    assert("acme must be production or staging"@.len() == 34);
    assert("Cloudflare API token is required"@.len() == 32);
    assert("Cloudflare API token looks too short"@.len() == 36);
    assert("Cloudflare API token contains invalid characters"@.len() == 48);
    assert("wildcard domain must be a DNS name (e.g. vsphere.example.com or *.vsphere.example.com)"@.len() == 86);
    let a0 = Seq::<Seq<char>>::empty();
    let a1 = a0 + noted_if(lower(trim(cfg.provider)) != "cloudflare"@, "provider must be cloudflare"@);
    let a2 = a1 + noted(email_fault(email));
    let a3 = a2 + noted_if(acme.len() != 0 && acme != "production"@ && acme != "staging"@, "acme must be production or staging"@);
    let a4 = a3 + noted((if with_token { token_fault(token) } else { None }));
    let a5 = a4 + noted_if(domain.len() != 0 && !is_domain(domain), "wildcard domain must be a DNS name (e.g. vsphere.example.com or *.vsphere.example.com)"@);
    assert(cert_faults(cfg, with_token) == a5);
    assert forall|q: Seq<char>|
        #![trigger a5.contains(q)]
        a5.contains(q) <==> (((lower(trim(cfg.provider)) != "cloudflare"@) && q == "provider must be cloudflare"@) || email_fault(email) == Some(q) || ((acme.len() != 0 && acme != "production"@ && acme != "staging"@) && q == "acme must be production or staging"@) || (if with_token { token_fault(token) } else { None }) == Some(q) || ((domain.len() != 0 && !is_domain(domain)) && q == "wildcard domain must be a DNS name (e.g. vsphere.example.com or *.vsphere.example.com)"@)) by {
        assert(!a0.contains(q));
        lemma_noted_if(a0, lower(trim(cfg.provider)) != "cloudflare"@, "provider must be cloudflare"@, q);
        lemma_noted(a1, email_fault(email), q);
        lemma_noted_if(a2, acme.len() != 0 && acme != "production"@ && acme != "staging"@, "acme must be production or staging"@, q);
        lemma_noted(a3, (if with_token { token_fault(token) } else { None }), q);
        lemma_noted_if(a4, domain.len() != 0 && !is_domain(domain), "wildcard domain must be a DNS name (e.g. vsphere.example.com or *.vsphere.example.com)"@, q);
    }
    lemma_noted_if(a0, lower(trim(cfg.provider)) != "cloudflare"@, "provider must be cloudflare"@, ""@);
    lemma_noted(a1, email_fault(email), ""@);
    lemma_noted_if(a2, acme.len() != 0 && acme != "production"@ && acme != "staging"@, "acme must be production or staging"@, ""@);
    lemma_noted(a3, (if with_token { token_fault(token) } else { None }), ""@);
    lemma_noted_if(a4, domain.len() != 0 && !is_domain(domain), "wildcard domain must be a DNS name (e.g. vsphere.example.com or *.vsphere.example.com)"@, ""@);
}

/// Each fault of the settings of the ingress comes exactly with its cause.
#[verifier::rlimit(60)]
pub proof fn law_faults_of_ingress(cfg: IngressConfigV, with_login: bool)
    ensures
        ({
            let f = ingress_faults(cfg, with_login);
            let tag = trim(cfg.image_tag);
            let host = trim(cfg.admin_host);
            let tls = chosen_name(cfg.tls_secret);
            let password = trim(cfg.admin_password);
            let user = trim(cfg.registry_user);
            let token = trim(cfg.registry_password);
            &&& f.contains("image tag is required"@) <==> (tag.len() == 0)
            &&& f.contains("image tag must be a Docker tag (letters, digits, . _ - +)"@) <==> (tag.len() > 0 && !is_tag(tag))
            &&& f.contains("admin host must be a DNS hostname"@) <==> (host.len() > 0 && !is_hostname(host))
            &&& f.contains("TLS secret requires an admin host"@) <==> (tls.len() > 0 && host.len() == 0)
            &&& f.contains("TLS secret must be a Kubernetes resource name"@) <==> (tls.len() > 0 && host.len() > 0 && !name_ok(trim(tls)))
            &&& f.contains("admin password is too short"@) <==> (password.len() > 0 && byte_len(password) < 4)
            &&& f.contains("admin password contains invalid characters"@) <==> (password.len() > 0 && byte_len(password) >= 4 && has_break(password))
            &&& f.contains("Harbor user contains invalid characters"@) <==> (user.len() > 0 && !is_registry_user(user))
            &&& f.contains("Harbor password looks too short"@) <==> (token.len() > 0 && byte_len(token) < 4)
            &&& f.contains("Harbor password contains invalid characters"@) <==> (token.len() > 0 && byte_len(token) >= 4 && has_break(token))
            &&& f.contains("Harbor password is required when a Harbor user is set"@) <==> (with_login && token.len() == 0)
            &&& f.contains("Harbor user is required when a Harbor password is set"@) <==> (user.len() == 0 && token.len() > 0)
            &&& f.len() == 0 <==> (is_tag(tag) && tag.len() > 0 && (host.len() == 0 || is_hostname(host)) && (tls.len() == 0 || host.len() > 0 && name_ok(trim(tls))) && (password.len() == 0 || byte_len(password) >= 4 && !has_break(password)) && (user.len() == 0 || is_registry_user(user)) && (token.len() == 0 || byte_len(token) >= 4 && !has_break(token) && user.len() > 0) && (with_login ==> token.len() > 0))
        }),
{
    let tag = trim(cfg.image_tag);
    let host = trim(cfg.admin_host);
    let tls = chosen_name(cfg.tls_secret);
    let password = trim(cfg.admin_password);
    let user = trim(cfg.registry_user);
    let token = trim(cfg.registry_password);
    reveal_strlit("image tag is required");
    reveal_strlit("image tag must be a Docker tag (letters, digits, . _ - +)");
    reveal_strlit("admin host must be a DNS hostname");
    reveal_strlit("TLS secret requires an admin host");
    reveal_strlit("TLS secret must be a Kubernetes resource name");
    reveal_strlit("admin password is too short");
    reveal_strlit("admin password contains invalid characters");
    reveal_strlit("Harbor user contains invalid characters");
    reveal_strlit("Harbor password looks too short");
    reveal_strlit("Harbor password contains invalid characters");
    reveal_strlit("Harbor password is required when a Harbor user is set");
    reveal_strlit("Harbor user is required when a Harbor password is set");
    assert("image tag is required"@.len() == 21);
    assert("image tag must be a Docker tag (letters, digits, . _ - +)"@.len() == 57);
    assert("admin host must be a DNS hostname"@.len() == 33);
    assert("TLS secret requires an admin host"@.len() == 33);
    assert("TLS secret must be a Kubernetes resource name"@.len() == 45);
    assert("admin password is too short"@.len() == 27);
    assert("admin password contains invalid characters"@.len() == 42);
    assert("Harbor user contains invalid characters"@.len() == 39);
    assert("Harbor password looks too short"@.len() == 31);
    assert("Harbor password contains invalid characters"@.len() == 43);
    assert("Harbor password is required when a Harbor user is set"@.len() == 53);
    assert("Harbor user is required when a Harbor password is set"@.len() == 53);
    assert("admin host must be a DNS hostname"@[0] == 'a' && "TLS secret requires an admin host"@[0] == 'T');
    assert("Harbor password is required when a Harbor user is set"@[7] == 'p' && "Harbor user is required when a Harbor password is set"@[7] == 'u');
    let a0 = Seq::<Seq<char>>::empty();
    let a1 = a0 + noted(tag_fault(tag));
    let a2 = a1 + noted_if(host.len() != 0 && !is_hostname(host), "admin host must be a DNS hostname"@);
    let a3 = a2 + noted(tls_fault(tls, host, "TLS secret requires an admin host"@));
    let a4 = a3 + noted(crate::addons::settings::secret_fault(password, "admin password is too short"@, "admin password contains invalid characters"@));
    let a5 = a4 + noted_if(user.len() != 0 && !is_registry_user(user), "Harbor user contains invalid characters"@);
    let a6 = a5 + noted(crate::addons::settings::secret_fault(token, "Harbor password looks too short"@, "Harbor password contains invalid characters"@));
    let a7 = a6 + noted_if(with_login && token.len() == 0, "Harbor password is required when a Harbor user is set"@);
    let a8 = a7 + noted_if(user.len() == 0 && token.len() != 0, "Harbor user is required when a Harbor password is set"@);
    assert(ingress_faults(cfg, with_login) == a8);
    assert forall|q: Seq<char>|
        #![trigger a8.contains(q)]
        a8.contains(q) <==> (tag_fault(tag) == Some(q) || ((host.len() != 0 && !is_hostname(host)) && q == "admin host must be a DNS hostname"@) || tls_fault(tls, host, "TLS secret requires an admin host"@) == Some(q) || crate::addons::settings::secret_fault(password, "admin password is too short"@, "admin password contains invalid characters"@) == Some(q) || ((user.len() != 0 && !is_registry_user(user)) && q == "Harbor user contains invalid characters"@) || crate::addons::settings::secret_fault(token, "Harbor password looks too short"@, "Harbor password contains invalid characters"@) == Some(q) || ((with_login && token.len() == 0) && q == "Harbor password is required when a Harbor user is set"@) || ((user.len() == 0 && token.len() != 0) && q == "Harbor user is required when a Harbor password is set"@)) by {
        assert(!a0.contains(q));
        lemma_noted(a0, tag_fault(tag), q);
        lemma_noted_if(a1, host.len() != 0 && !is_hostname(host), "admin host must be a DNS hostname"@, q);
        lemma_noted(a2, tls_fault(tls, host, "TLS secret requires an admin host"@), q);
        lemma_noted(a3, crate::addons::settings::secret_fault(password, "admin password is too short"@, "admin password contains invalid characters"@), q);
        lemma_noted_if(a4, user.len() != 0 && !is_registry_user(user), "Harbor user contains invalid characters"@, q);
        lemma_noted(a5, crate::addons::settings::secret_fault(token, "Harbor password looks too short"@, "Harbor password contains invalid characters"@), q);
        lemma_noted_if(a6, with_login && token.len() == 0, "Harbor password is required when a Harbor user is set"@, q);
        lemma_noted_if(a7, user.len() == 0 && token.len() != 0, "Harbor user is required when a Harbor password is set"@, q);
    }
    lemma_noted(a0, tag_fault(tag), ""@);
    lemma_noted_if(a1, host.len() != 0 && !is_hostname(host), "admin host must be a DNS hostname"@, ""@);
    lemma_noted(a2, tls_fault(tls, host, "TLS secret requires an admin host"@), ""@);
    lemma_noted(a3, crate::addons::settings::secret_fault(password, "admin password is too short"@, "admin password contains invalid characters"@), ""@);
    lemma_noted_if(a4, user.len() != 0 && !is_registry_user(user), "Harbor user contains invalid characters"@, ""@);
    lemma_noted(a5, crate::addons::settings::secret_fault(token, "Harbor password looks too short"@, "Harbor password contains invalid characters"@), ""@);
    lemma_noted_if(a6, with_login && token.len() == 0, "Harbor password is required when a Harbor user is set"@, ""@);
    lemma_noted_if(a7, user.len() == 0 && token.len() != 0, "Harbor user is required when a Harbor password is set"@, ""@);
}

/// Each fault of the settings of the dashboard comes exactly with its cause.
#[verifier::rlimit(60)]
pub proof fn law_faults_of_dashboard(cfg: KubernetesDashboardConfigV, with_password: bool)
    ensures
        ({
            let f = dashboard_faults(cfg, with_password);
            let user = trim(cfg.username);
            let host = trim(cfg.host);
            let tls = chosen_name(cfg.tls_secret);
            let password = trim(cfg.password);
            &&& f.contains("dashboard namespace must be a Kubernetes resource name"@) <==> (!name_ok(trim(trim(cfg.namespace))))
            &&& f.contains("image tag must be a Docker tag (letters, digits, . _ - +)"@) <==> (!is_tag(trim(cfg.image_tag)))
            &&& f.contains("dashboard user must be 1-128 characters without line breaks"@) <==> (user.len() == 0 || byte_len(user) > 128 || has_break(user))
            &&& f.contains("dashboard password is required"@) <==> (with_password && password.len() == 0)
            &&& f.contains("dashboard password must be at least 8 characters without line breaks"@) <==> (password.len() > 0 && (byte_len(password) < 8 || has_break(password)))
            &&& f.contains("dashboard host must be a DNS hostname"@) <==> (host.len() > 0 && !is_hostname(host))
            &&& f.contains("TLS secret requires a dashboard host"@) <==> (tls.len() > 0 && host.len() == 0)
            &&& f.contains("TLS secret must be a Kubernetes resource name"@) <==> (tls.len() > 0 && host.len() > 0 && !name_ok(trim(tls)))
            &&& f.len() == 0 <==> (name_ok(trim(trim(cfg.namespace))) && is_tag(trim(cfg.image_tag)) && 0 < user.len() && byte_len(user) <= 128 && !has_break(user) && (with_password ==> password.len() > 0) && (password.len() == 0 || byte_len(password) >= 8 && !has_break(password)) && (host.len() == 0 || is_hostname(host)) && (tls.len() == 0 || host.len() > 0 && name_ok(trim(tls))))
        }),
{
    let user = trim(cfg.username);
    let host = trim(cfg.host);
    let tls = chosen_name(cfg.tls_secret);
    let password = trim(cfg.password);
    reveal_strlit("dashboard namespace must be a Kubernetes resource name");
    reveal_strlit("image tag must be a Docker tag (letters, digits, . _ - +)");
    reveal_strlit("dashboard user must be 1-128 characters without line breaks");
    reveal_strlit("dashboard password is required");
    reveal_strlit("dashboard password must be at least 8 characters without line breaks");
    reveal_strlit("dashboard host must be a DNS hostname");
    reveal_strlit("TLS secret requires a dashboard host");
    reveal_strlit("TLS secret must be a Kubernetes resource name");
    assert("dashboard namespace must be a Kubernetes resource name"@.len() == 54);
    assert("image tag must be a Docker tag (letters, digits, . _ - +)"@.len() == 57);
    assert("dashboard user must be 1-128 characters without line breaks"@.len() == 59);
    assert("dashboard password is required"@.len() == 30);
    assert("dashboard password must be at least 8 characters without line breaks"@.len() == 68);
    assert("dashboard host must be a DNS hostname"@.len() == 37);
    assert("TLS secret requires a dashboard host"@.len() == 36);
    assert("TLS secret must be a Kubernetes resource name"@.len() == 45);
    let a0 = Seq::<Seq<char>>::empty();
    let a1 = a0 + noted_if(!name_ok(trim(trim(cfg.namespace))), "dashboard namespace must be a Kubernetes resource name"@);
    let a2 = a1 + noted_if(!is_tag(trim(cfg.image_tag)), "image tag must be a Docker tag (letters, digits, . _ - +)"@);
    let a3 = a2 + noted_if(user.len() == 0 || byte_len(user) > 128 || has_break(user), "dashboard user must be 1-128 characters without line breaks"@);
    let a4 = a3 + noted(dashboard_password_fault(password, with_password));
    let a5 = a4 + noted_if(host.len() != 0 && !is_hostname(host), "dashboard host must be a DNS hostname"@);
    let a6 = a5 + noted(tls_fault(tls, host, "TLS secret requires a dashboard host"@));
    assert(dashboard_faults(cfg, with_password) == a6);
    assert forall|q: Seq<char>|
        #![trigger a6.contains(q)]
        a6.contains(q) <==> (((!name_ok(trim(trim(cfg.namespace)))) && q == "dashboard namespace must be a Kubernetes resource name"@) || ((!is_tag(trim(cfg.image_tag))) && q == "image tag must be a Docker tag (letters, digits, . _ - +)"@) || ((user.len() == 0 || byte_len(user) > 128 || has_break(user)) && q == "dashboard user must be 1-128 characters without line breaks"@) || dashboard_password_fault(password, with_password) == Some(q) || ((host.len() != 0 && !is_hostname(host)) && q == "dashboard host must be a DNS hostname"@) || tls_fault(tls, host, "TLS secret requires a dashboard host"@) == Some(q)) by {
        assert(!a0.contains(q));
        lemma_noted_if(a0, !name_ok(trim(trim(cfg.namespace))), "dashboard namespace must be a Kubernetes resource name"@, q);
        lemma_noted_if(a1, !is_tag(trim(cfg.image_tag)), "image tag must be a Docker tag (letters, digits, . _ - +)"@, q);
        lemma_noted_if(a2, user.len() == 0 || byte_len(user) > 128 || has_break(user), "dashboard user must be 1-128 characters without line breaks"@, q);
        lemma_noted(a3, dashboard_password_fault(password, with_password), q);
        lemma_noted_if(a4, host.len() != 0 && !is_hostname(host), "dashboard host must be a DNS hostname"@, q);
        lemma_noted(a5, tls_fault(tls, host, "TLS secret requires a dashboard host"@), q);
    }
    lemma_noted_if(a0, !name_ok(trim(trim(cfg.namespace))), "dashboard namespace must be a Kubernetes resource name"@, ""@);
    lemma_noted_if(a1, !is_tag(trim(cfg.image_tag)), "image tag must be a Docker tag (letters, digits, . _ - +)"@, ""@);
    lemma_noted_if(a2, user.len() == 0 || byte_len(user) > 128 || has_break(user), "dashboard user must be 1-128 characters without line breaks"@, ""@);
    lemma_noted(a3, dashboard_password_fault(password, with_password), ""@);
    lemma_noted_if(a4, host.len() != 0 && !is_hostname(host), "dashboard host must be a DNS hostname"@, ""@);
    lemma_noted(a5, tls_fault(tls, host, "TLS secret requires a dashboard host"@), ""@);
}

/// Each fault of the settings of the autoscaler comes exactly with its cause; what
/// is accepted has bounds that admit a number of workers.
#[verifier::rlimit(60)]
pub proof fn law_faults_of_scaler(cfg: KosScalerConfigV, with_password: bool)
    ensures
        ({
            let f = scaler_faults(cfg, with_password);
            let tag = trim(cfg.image_tag);
            &&& f.contains("mgmt username is required"@) <==> (trim(cfg.username).len() == 0)
            &&& f.contains("mgmt password is required"@) <==> (with_password && trim(cfg.password).len() == 0)
            &&& f.contains("mgmt password contains invalid characters"@) <==> (trim(cfg.password).len() > 0 && has_break(cfg.password))
            &&& f.contains("worker min must be >= 0"@) <==> (cfg.min_size < 0)
            &&& f.contains("worker max must be >= 1"@) <==> (cfg.max_size < 1)
            &&& f.contains("worker max must be >= worker min"@) <==> (cfg.min_size > cfg.max_size)
            &&& f.contains("image tag must be a Docker tag (letters, digits, . _ - +)"@) <==> (tag.len() > 0 && !is_tag(tag))
            &&& f.len() == 0 <==> (trim(cfg.username).len() > 0 && (with_password ==> trim(cfg.password).len() > 0) && !(trim(cfg.password).len() > 0 && has_break(cfg.password)) && 0 <= cfg.min_size <= cfg.max_size && 1 <= cfg.max_size && (tag.len() == 0 || is_tag(tag)))
        }),
{
    let tag = trim(cfg.image_tag);
    reveal_strlit("mgmt username is required");
    reveal_strlit("mgmt password is required");
    reveal_strlit("mgmt password contains invalid characters");
    reveal_strlit("worker min must be >= 0");
    reveal_strlit("worker max must be >= 1");
    reveal_strlit("worker max must be >= worker min");
    reveal_strlit("image tag must be a Docker tag (letters, digits, . _ - +)");
    assert("mgmt username is required"@.len() == 25);
    assert("mgmt password is required"@.len() == 25);
    assert("mgmt password contains invalid characters"@.len() == 41);
    assert("worker min must be >= 0"@.len() == 23);
    assert("worker max must be >= 1"@.len() == 23);
    assert("worker max must be >= worker min"@.len() == 32);
    assert("image tag must be a Docker tag (letters, digits, . _ - +)"@.len() == 57);
    assert("mgmt username is required"@[5] == 'u' && "mgmt password is required"@[5] == 'p');
    assert("worker min must be >= 0"@[8] == 'i' && "worker max must be >= 1"@[8] == 'a');
    let a0 = Seq::<Seq<char>>::empty();
    let a1 = a0 + noted_if(trim(cfg.username).len() == 0, "mgmt username is required"@);
    let a2 = a1 + noted_if(with_password && trim(cfg.password).len() == 0, "mgmt password is required"@);
    let a3 = a2 + noted_if(trim(cfg.password).len() != 0 && has_break(cfg.password), "mgmt password contains invalid characters"@);
    let a4 = a3 + noted_if(cfg.min_size < 0, "worker min must be >= 0"@);
    let a5 = a4 + noted_if(cfg.max_size < 1, "worker max must be >= 1"@);
    let a6 = a5 + noted_if(cfg.max_size < cfg.min_size, "worker max must be >= worker min"@);
    let a7 = a6 + noted_if(tag.len() != 0 && !is_tag(tag), "image tag must be a Docker tag (letters, digits, . _ - +)"@);
    assert(scaler_faults(cfg, with_password) == a7);
    assert forall|q: Seq<char>|
        #![trigger a7.contains(q)]
        a7.contains(q) <==> (((trim(cfg.username).len() == 0) && q == "mgmt username is required"@) || ((with_password && trim(cfg.password).len() == 0) && q == "mgmt password is required"@) || ((trim(cfg.password).len() != 0 && has_break(cfg.password)) && q == "mgmt password contains invalid characters"@) || ((cfg.min_size < 0) && q == "worker min must be >= 0"@) || ((cfg.max_size < 1) && q == "worker max must be >= 1"@) || ((cfg.max_size < cfg.min_size) && q == "worker max must be >= worker min"@) || ((tag.len() != 0 && !is_tag(tag)) && q == "image tag must be a Docker tag (letters, digits, . _ - +)"@)) by {
        assert(!a0.contains(q));
        lemma_noted_if(a0, trim(cfg.username).len() == 0, "mgmt username is required"@, q);
        lemma_noted_if(a1, with_password && trim(cfg.password).len() == 0, "mgmt password is required"@, q);
        lemma_noted_if(a2, trim(cfg.password).len() != 0 && has_break(cfg.password), "mgmt password contains invalid characters"@, q);
        lemma_noted_if(a3, cfg.min_size < 0, "worker min must be >= 0"@, q);
        lemma_noted_if(a4, cfg.max_size < 1, "worker max must be >= 1"@, q);
        lemma_noted_if(a5, cfg.max_size < cfg.min_size, "worker max must be >= worker min"@, q);
        lemma_noted_if(a6, tag.len() != 0 && !is_tag(tag), "image tag must be a Docker tag (letters, digits, . _ - +)"@, q);
    }
    lemma_noted_if(a0, trim(cfg.username).len() == 0, "mgmt username is required"@, ""@);
    lemma_noted_if(a1, with_password && trim(cfg.password).len() == 0, "mgmt password is required"@, ""@);
    lemma_noted_if(a2, trim(cfg.password).len() != 0 && has_break(cfg.password), "mgmt password contains invalid characters"@, ""@);
    lemma_noted_if(a3, cfg.min_size < 0, "worker min must be >= 0"@, ""@);
    lemma_noted_if(a4, cfg.max_size < 1, "worker max must be >= 1"@, ""@);
    lemma_noted_if(a5, cfg.max_size < cfg.min_size, "worker max must be >= worker min"@, ""@);
    lemma_noted_if(a6, tag.len() != 0 && !is_tag(tag), "image tag must be a Docker tag (letters, digits, . _ - +)"@, ""@);
}

/// The addresses of the load balancer are accepted exactly where each that is
/// given is of its family, and those that the network needs are given.
pub proof fn law_balancer_settings_accepted(cfg: CiliumLbConfigV, network_mode: Seq<char>)
    ensures
        ({
            let mode = lower(trim(network_mode));
            let four = trim(cfg.ipv4);
            let six = trim(cfg.ipv6);
            lb_faults(cfg, network_mode).len() == 0 <==> {
                &&& four.len() > 0 ==> lb_cidr(four, IpFamily::V4) is Ok
                &&& six.len() > 0 ==> lb_cidr(six, IpFamily::V6) is Ok
                &&& mode != "ipv6"@ ==> four.len() > 0
                &&& mode == "ipv6"@ || mode == "dual-stack"@ ==> six.len() > 0
            }
        }),
{
}

/// What is wrong with an address of the load balancer is said of its family.
pub proof fn law_balancer_fault_names_its_family(cfg: CiliumLbConfigV, network_mode: Seq<char>)
    ensures
        ({
            let f = lb_faults(cfg, network_mode);
            let four = trim(cfg.ipv4);
            let six = trim(cfg.ipv6);
            let mode = lower(trim(network_mode));
            &&& four.len() == 0 && mode != "ipv6"@ ==> f.contains("ELB IPv4 is required"@)
            &&& six.len() == 0 && (mode == "ipv6"@ || mode == "dual-stack"@) ==> f.contains(
                "ELB IPv6 is required on dual-stack / IPv6 clusters"@,
            )
            &&& four.len() > 0 && lb_cidr(four, IpFamily::V4) is Err ==> f.contains(
                "ELB IPv4: "@ + lb_cidr(four, IpFamily::V4)->Err_0,
            )
            &&& six.len() > 0 && lb_cidr(six, IpFamily::V6) is Err ==> f.contains(
                "ELB IPv6: "@ + lb_cidr(six, IpFamily::V6)->Err_0,
            )
        }),
{
    let f = lb_faults(cfg, network_mode);
    if f.len() > 0 {
        assert(f.contains(f[0]));
        assert(f.contains(f[f.len() - 1]));
    }
}

/// An address of the load balancer is accepted only in its own family, with the
/// prefix that is given, which is no longer than an address, or else that of one
/// address; an address of the other family is named as what it is not.
pub proof fn law_block_of_addresses(raw: Seq<char>, p: nat)
    requires
        trim(raw).len() > 0,
        byte_len(trim(raw)) <= 80,
        cidr_chars(trim(raw)),
    ensures
        ({
            let t = trim(raw);
            let one = split_once(t, "/"@) is None;
            let (a, length) = match split_once(t, "/"@) {
                Some((front, back)) => (front, back),
                None => (t, Seq::<char>::empty()),
            };
            let given = !one && parse_nat(length, u32::MAX as nat) == Some(p);
            &&& parse_ip(a) matches Some(Ok(q)) ==> {
                &&& given && p <= 32 ==> lb_cidr(raw, IpFamily::V4) == Ok::<Seq<char>, Seq<char>>(
                    show_v4(q.0, q.1, q.2, q.3) + "/"@ + dec(p),
                )
                &&& given && p > 32 ==> lb_cidr(raw, IpFamily::V4) is Err
                &&& one ==> lb_cidr(raw, IpFamily::V4) == Ok::<Seq<char>, Seq<char>>(
                    show_v4(q.0, q.1, q.2, q.3) + "/"@ + dec(32),
                )
                &&& lb_cidr(raw, IpFamily::V6) is Err
            }
            &&& parse_ip(a) matches Some(Err(g)) ==> {
                &&& given && p <= 128 ==> lb_cidr(raw, IpFamily::V6) == Ok::<Seq<char>, Seq<char>>(
                    show_v6(g) + "/"@ + dec(p),
                )
                &&& given && p > 128 ==> lb_cidr(raw, IpFamily::V6) is Err
                &&& one ==> lb_cidr(raw, IpFamily::V6) == Ok::<Seq<char>, Seq<char>>(
                    show_v6(g) + "/"@ + dec(128),
                )
                &&& lb_cidr(raw, IpFamily::V4) is Err
            }
            &&& parse_ip(a) is None ==> lb_cidr(raw, IpFamily::V4) is Err && lb_cidr(
                raw,
                IpFamily::V6,
            ) is Err
        }),
{
}

/// What is shown of the settings is what they hold, without white space around it:
/// read back, the public settings are those that were shown.
#[verifier::rlimit(40)]
pub proof fn law_shown_settings_are_read_back(
    n: NfsConfigV,
    c: CertManagerConfigV,
    i: IngressConfigV,
    d: KubernetesDashboardConfigV,
)
    ensures
        nfs_stored(public_nfs(n)).server == trim(n.server),
        nfs_stored(public_nfs(n)).path == trim(n.path),
        cert_stored(public_cert(c)).provider == lower(trim(c.provider)),
        cert_stored(public_cert(c)).email == trim(c.email),
        cert_stored(public_cert(c)).acme == kept_or(c.acme, "production"@),
        cert_stored(public_cert(c)).issuer == kept_or(c.issuer, "letsencrypt-cloudflare"@),
        cert_stored(public_cert(c)).domain == trim(c.domain),
        ingress_stored(public_ingress(i)).admin_host == trim(i.admin_host),
        ingress_stored(public_ingress(i)).registry_user == trim(i.registry_user),
        dashboard_stored(public_dashboard(d)).host == trim(d.host),
        is_named(i.tls_secret) ==> ingress_stored(public_ingress(i)).tls_secret == trim(
            i.tls_secret,
        ),
        is_named(d.tls_secret) ==> dashboard_stored(public_dashboard(d)).tls_secret == trim(
            d.tls_secret,
        ),
{
    broadcast use {crate::json::lemma_get_with, crate::json::lemma_get_empty};

    reveal_strlit("server");
    reveal_strlit("path");
    reveal_strlit("provider");
    reveal_strlit("email");
    reveal_strlit("acme");
    reveal_strlit("issuer");
    reveal_strlit("domain");
    reveal_strlit("tls_secret");
    reveal_strlit("image_tag");
    reveal_strlit("admin_host");
    reveal_strlit("registry_user");
    reveal_strlit("image");
    reveal_strlit("namespace");
    reveal_strlit("username");
    reveal_strlit("host");
    reveal_strlit("none");
    assert("server"@.len() == 6);
    assert("path"@.len() == 4);
    assert("provider"@.len() == 8);
    assert("email"@.len() == 5);
    assert("acme"@.len() == 4);
    assert("issuer"@.len() == 6);
    assert("domain"@.len() == 6);
    assert("tls_secret"@.len() == 10);
    assert("image_tag"@.len() == 9);
    assert("admin_host"@.len() == 10);
    assert("registry_user"@.len() == 13);
    assert("image"@.len() == 5);
    assert("namespace"@.len() == 9);
    assert("username"@.len() == 8);
    assert("host"@.len() == 4);
    assert("none"@.len() == 4);
    assert("server"@[0] == 's' && "issuer"@[0] == 'i');
    assert("server"@[0] == 's' && "domain"@[0] == 'd');
    assert("issuer"@[0] == 'i' && "domain"@[0] == 'd');
    assert("path"@[0] == 'p' && "acme"@[0] == 'a');
    assert("path"@[0] == 'p' && "host"@[0] == 'h');
    assert("path"@[0] == 'p' && "none"@[0] == 'n');
    assert("acme"@[0] == 'a' && "host"@[0] == 'h');
    assert("acme"@[0] == 'a' && "none"@[0] == 'n');
    assert("host"@[0] == 'h' && "none"@[0] == 'n');
    assert("provider"@[0] == 'p' && "username"@[0] == 'u');
    assert("email"@[0] == 'e' && "image"@[0] == 'i');
    assert("tls_secret"@[0] == 't' && "admin_host"@[0] == 'a');
    assert("image_tag"@[0] == 'i' && "namespace"@[0] == 'n');
    assert(lower("none"@) =~= "none"@);
}

/// What is shown of an add-on, member by member.
#[verifier::rlimit(40)]
pub proof fn law_shown_members(
    i: IngressConfigV,
    d: KubernetesDashboardConfigV,
    s: KosScalerConfigV,
    l: CiliumLbConfigV,
)
    ensures
        public_ingress(i).get("image_tag"@) == Some(
            JsonV::Str(kept_or(i.image_tag, INGRESS_IMAGE_TAG@)),
        ),
        public_ingress(i).get("image"@) == Some(
            JsonV::Str(
                INGRESS_IMAGE_REGISTRY@ + "/"@ + INGRESS_IMAGE_REPO@ + ":"@ + kept_or(
                    i.image_tag,
                    INGRESS_IMAGE_TAG@,
                ),
            ),
        ),
        public_dashboard(d).get("namespace"@) == Some(
            JsonV::Str(kept_or(d.namespace, KUBERNETES_DASHBOARD_NAMESPACE@)),
        ),
        public_dashboard(d).get("username"@) == Some(JsonV::Str(kept_or(d.username, "admin"@))),
        public_dashboard(d).get("image_tag"@) == Some(
            JsonV::Str(kept_or(d.image_tag, KUBERNETES_DASHBOARD_IMAGE_TAG@)),
        ),
        public_scaler(s).get("username"@) == Some(JsonV::Str(trim(s.username))),
        public_scaler(s).get("storage_class"@) == Some(
            JsonV::Str(kept_or(s.storage_class, "nfs-client"@)),
        ),
        public_scaler(s).get("mgmt_url"@) == Some(JsonV::Str(trim(s.mgmt_url))),
        lb_cidr(trim(l.ipv4), IpFamily::V4) is Ok ==> public_lb(l).get("ipv4"@) == Some(
            JsonV::Str(lb_cidr(trim(l.ipv4), IpFamily::V4)->Ok_0),
        ),
        lb_cidr(trim(l.ipv4), IpFamily::V4) is Err ==> public_lb(l).get("ipv4"@) == Some(
            JsonV::Str(trim(l.ipv4)),
        ),
        lb_cidr(trim(l.ipv6), IpFamily::V6) is Ok ==> public_lb(l).get("ipv6"@) == Some(
            JsonV::Str(lb_cidr(trim(l.ipv6), IpFamily::V6)->Ok_0),
        ),
        lb_cidr(trim(l.ipv6), IpFamily::V6) is Err ==> public_lb(l).get("ipv6"@) == Some(
            JsonV::Str(trim(l.ipv6)),
        ),
{
    broadcast use {crate::json::lemma_get_with, crate::json::lemma_get_empty};

    reveal_strlit("image_tag");
    reveal_strlit("admin_host");
    reveal_strlit("tls_secret");
    reveal_strlit("registry_user");
    reveal_strlit("image");
    reveal_strlit("namespace");
    reveal_strlit("username");
    reveal_strlit("host");
    reveal_strlit("min_size");
    reveal_strlit("max_size");
    reveal_strlit("storage_class");
    reveal_strlit("mgmt_url");
    reveal_strlit("ipv4");
    reveal_strlit("ipv6");
    assert("image_tag"@.len() == 9);
    assert("admin_host"@.len() == 10);
    assert("tls_secret"@.len() == 10);
    assert("registry_user"@.len() == 13);
    assert("image"@.len() == 5);
    assert("namespace"@.len() == 9);
    assert("username"@.len() == 8);
    assert("host"@.len() == 4);
    assert("min_size"@.len() == 8);
    assert("max_size"@.len() == 8);
    assert("storage_class"@.len() == 13);
    assert("mgmt_url"@.len() == 8);
    assert("ipv4"@.len() == 4);
    assert("ipv6"@.len() == 4);
    assert("image_tag"@[0] == 'i' && "namespace"@[0] == 'n');
    assert("admin_host"@[0] == 'a' && "tls_secret"@[0] == 't');
    assert("registry_user"@[0] == 'r' && "storage_class"@[0] == 's');
    assert("username"@[0] == 'u' && "min_size"@[0] == 'm');
    assert("username"@[0] == 'u' && "max_size"@[0] == 'm');
    assert("username"@[0] == 'u' && "mgmt_url"@[0] == 'm');
    assert("min_size"@[1] == 'i' && "max_size"@[1] == 'a');
    assert("min_size"@[1] == 'i' && "mgmt_url"@[1] == 'g');
    assert("max_size"@[1] == 'a' && "mgmt_url"@[1] == 'g');
    assert("host"@[0] == 'h' && "ipv4"@[0] == 'i');
    assert("host"@[0] == 'h' && "ipv6"@[0] == 'i');
    assert("ipv4"@[3] == '4' && "ipv6"@[3] == '6');
}

/// Stored settings are taken member by member, each under its own name; what is
/// missing has its default, and a secret is never among them for certificates.
#[verifier::rlimit(40)]
pub proof fn law_stored_members(v: JsonV, k: Seq<char>)
    ensures
        v.get("server"@) == Some(JsonV::Str(k)) ==> nfs_stored(v).server == k,
        v.get("path"@) == Some(JsonV::Str(k)) ==> nfs_stored(v).path == k,
        v.get("email"@) == Some(JsonV::Str(k)) ==> cert_stored(v).email == k,
        v.get("acme"@) == Some(JsonV::Str(k)) ==> cert_stored(v).acme == k,
        v.get("acme"@) is None ==> cert_stored(v).acme == "production"@,
        v.get("provider"@) is None ==> cert_stored(v).provider == "cloudflare"@,
        v.get("issuer"@) == Some(JsonV::Str(k)) ==> cert_stored(v).issuer == k,
        v.get("issuer"@) is None ==> cert_stored(v).issuer == "letsencrypt-cloudflare"@,
        v.get("domain"@) == Some(JsonV::Str(k)) ==> cert_stored(v).domain == k,
        cert_stored(v).api_token.len() == 0,
        v.get("ipv4"@) == Some(JsonV::Str(k)) ==> lb_stored(v).ipv4 == k,
        v.get("ipv6"@) == Some(JsonV::Str(k)) ==> lb_stored(v).ipv6 == k,
        v.get("admin_host"@) == Some(JsonV::Str(k)) ==> ingress_stored(v).admin_host == k,
        v.get("tls_secret"@) == Some(JsonV::Str(k)) ==> ingress_stored(v).tls_secret == k,
        v.get("admin_password"@) == Some(JsonV::Str(k)) ==> ingress_stored(v).admin_password == k,
        v.get("registry_user"@) == Some(JsonV::Str(k)) ==> ingress_stored(v).registry_user == k,
        v.get("registry_password"@) == Some(JsonV::Str(k)) ==> ingress_stored(
            v,
        ).registry_password == k,
        v.get("image_tag"@) == Some(JsonV::Str(k)) ==> ingress_stored(v).image_tag == kept_or(
            k,
            INGRESS_IMAGE_TAG@,
        ),
        v.get("username"@) == Some(JsonV::Str(k)) && trim(k).len() > 0 ==> dashboard_stored(
            v,
        ).username == k,
        v.get("username"@) is None ==> dashboard_stored(v).username == "admin"@,
        v.get("namespace"@) == Some(JsonV::Str(k)) && trim(k).len() > 0 ==> dashboard_stored(
            v,
        ).namespace == k,
        v.get("password"@) == Some(JsonV::Str(k)) ==> dashboard_stored(v).password == k,
        v.get("host"@) == Some(JsonV::Str(k)) ==> dashboard_stored(v).host == k,
        v.get("username"@) == Some(JsonV::Str(k)) ==> scaler_stored(v).username == k,
        v.get("password"@) == Some(JsonV::Str(k)) ==> scaler_stored(v).password == k,
        v.get("storage_class"@) == Some(JsonV::Str(k)) ==> scaler_stored(v).storage_class == k,
        v.get("mgmt_url"@) == Some(JsonV::Str(k)) ==> scaler_stored(v).mgmt_url == k,
{
}

/// The bounds of the autoscaler are read from a number or its digits; two and ten
/// stand for those that are missing.
pub proof fn law_stored_bounds(v: JsonV, n: i64)
    ensures
        v.get("min_size"@) == Some(JsonV::Int(n as int)) ==> scaler_stored(v).min_size == n,
        v.get("max_size"@) == Some(JsonV::Int(n as int)) ==> scaler_stored(v).max_size == n,
        v.get("min_size"@) is None ==> scaler_stored(v).min_size == 2,
        v.get("max_size"@) is None ==> scaler_stored(v).max_size == 10,
        v.get("min_size"@) matches Some(JsonV::Str(t)) && parse_int(trim(t)) == Some(n as int)
            ==> scaler_stored(v).min_size == n,
        v.get("max_size"@) matches Some(JsonV::Str(t)) && parse_int(trim(t)) == Some(n as int)
            ==> scaler_stored(v).max_size == n,
{
    lemma_blank_is_no_number();
}

proof fn lemma_blank_is_no_number()
    ensures
        parse_int(trim(""@)) is None,
{
    reveal_strlit("");
    let t = trim(""@);
    assert(t.len() == 0) by {
        reveal_with_fuel(trim, 1);
    }
}

} // verus!
