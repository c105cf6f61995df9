use vstd::prelude::*;
use vstd::string::StringExecFns;
use crate::json::{
    bool_or, get_str, spec_bool_or, spec_get_str, spec_str_or, str_or, JsonValue,
};
use crate::text::{replace, s2, s3, s6, spec_replace};

verus! {

/// Everything `create_vhost` computes before touching the system: the
/// validated parameters and every path the ordered steps will use.
#[derive(Debug)]
pub struct VhostPlan {
    pub domain: String,
    pub user: String,
    pub root: String,
    pub php_version: String,
    pub has_ssl: bool,
    pub ssl_cert: String,
    pub ssl_key: String,
    pub nginx_available: String,
    pub nginx_enabled: String,
    pub php_pool_dir: String,
    pub php_pool: String,
    pub temp_nginx: String,
    pub temp_php: String,
}

/// Validate the parameters of `create_vhost` and lay out its paths.
/// Required fields are probed in order; the first missing one names the
/// failure. The temporary pool file flattens spaces in the account name.
pub fn create_vhost_plan(params: &JsonValue) -> (r: Result<VhostPlan, String>)
    ensures
        spec_get_str(*params, "domain"@).is_none() ==> (r matches Err(m) && m@
            == "Missing domain"@),
        spec_get_str(*params, "domain"@).is_some() && spec_get_str(*params, "user"@).is_none()
            ==> (r matches Err(m) && m@ == "Missing user"@),
        spec_get_str(*params, "domain"@).is_some() && spec_get_str(*params, "user"@).is_some()
            && spec_get_str(*params, "root"@).is_none() ==> (r matches Err(m) && m@
            == "Missing root"@),
        spec_get_str(*params, "domain"@).is_some() && spec_get_str(*params, "user"@).is_some()
            && spec_get_str(*params, "root"@).is_some() && spec_get_str(
            *params,
            "php_version"@,
        ).is_none() ==> (r matches Err(m) && m@ == "Missing php_version"@),
        spec_get_str(*params, "domain"@).is_some() && spec_get_str(*params, "user"@).is_some()
            && spec_get_str(*params, "root"@).is_some() && spec_get_str(
            *params,
            "php_version"@,
        ).is_some() ==> (r matches Ok(p) && {
            let domain = spec_get_str(*params, "domain"@).unwrap();
            let user = spec_get_str(*params, "user"@).unwrap();
            let root = spec_get_str(*params, "root"@).unwrap();
            let php = spec_get_str(*params, "php_version"@).unwrap();
            &&& p.domain@ == domain
            &&& p.user@ == user
            &&& p.root@ == root
            &&& p.php_version@ == php
            &&& p.has_ssl == spec_bool_or(*params, "has_ssl"@, false)
            &&& p.ssl_cert@ == spec_str_or(*params, "ssl_certificate_path"@, ""@)
            &&& p.ssl_key@ == spec_str_or(*params, "ssl_key_path"@, ""@)
            &&& p.nginx_available@ == "/etc/nginx/sites-available/"@ + domain
            &&& p.nginx_enabled@ == "/etc/nginx/sites-enabled/"@ + domain
            &&& p.php_pool_dir@ == "/etc/php/"@ + php + "/fpm/pool.d"@
            &&& p.php_pool@ == "/etc/php/"@ + php + "/fpm/pool.d"@ + "/"@ + user + ".conf"@
            &&& p.temp_nginx@ == "/tmp/nginx_"@ + domain + ".conf"@
            &&& p.temp_php@ == "/tmp/php_"@ + spec_replace(user, " "@, "_"@) + ".conf"@
        }),
{
    let domain = match get_str(params, "domain") {
        Some(s) => s.clone(),
        None => {
            return Err(String::from_str("Missing domain"));
        },
    };
    let user = match get_str(params, "user") {
        Some(s) => s.clone(),
        None => {
            return Err(String::from_str("Missing user"));
        },
    };
    let root = match get_str(params, "root") {
        Some(s) => s.clone(),
        None => {
            return Err(String::from_str("Missing root"));
        },
    };
    let php_version = match get_str(params, "php_version") {
        Some(s) => s.clone(),
        None => {
            return Err(String::from_str("Missing php_version"));
        },
    };
    let has_ssl = bool_or(params, "has_ssl", false);
    let ssl_cert = str_or(params, "ssl_certificate_path", "");
    let ssl_key = str_or(params, "ssl_key_path", "");

    let nginx_available = s2("/etc/nginx/sites-available/", domain.as_str());
    let nginx_enabled = s2("/etc/nginx/sites-enabled/", domain.as_str());
    let php_pool_dir = s3("/etc/php/", php_version.as_str(), "/fpm/pool.d");
    let php_pool = php_pool_dir.clone().concat("/").concat(user.as_str()).concat(".conf");
    let temp_nginx = s3("/tmp/nginx_", domain.as_str(), ".conf");
    let flat_user = replace(user.as_str(), " ", "_");
    let temp_php = s3("/tmp/php_", flat_user.as_str(), ".conf");

    Ok(
        VhostPlan {
            domain,
            user,
            root,
            php_version,
            has_ssl,
            ssl_cert,
            ssl_key,
            nginx_available,
            nginx_enabled,
            php_pool_dir,
            php_pool,
            temp_nginx,
            temp_php,
        },
    )
}

/// The redirect fragment substituted into the web-server template.
pub open spec fn spec_ssl_redirect(has_ssl: bool) -> Seq<char> {
    if has_ssl {
        "return 301 https://$host$request_uri;"@
    } else {
        Seq::<char>::empty()
    }
}

/// The listener fragment substituted into the web-server template.
pub open spec fn spec_ssl_config(has_ssl: bool, cert: Seq<char>, key: Seq<char>) -> Seq<char> {
    if has_ssl {
        "listen 443 ssl;\n    ssl_certificate "@ + cert + ";\n    ssl_certificate_key "@ + key
            + ";"@
    } else {
        Seq::<char>::empty()
    }
}

/// The web-server template with every placeholder substituted, in the
/// order the substitutions are applied.
pub open spec fn spec_render_nginx(
    stub: Seq<char>,
    domain: Seq<char>,
    root: Seq<char>,
    php: Seq<char>,
    user: Seq<char>,
    ssl_redirect: Seq<char>,
    ssl_config: Seq<char>,
) -> Seq<char> {
    spec_replace(
        spec_replace(
            spec_replace(
                spec_replace(
                    spec_replace(
                        spec_replace(
                            spec_replace(stub, "{{DOMAIN}}"@, domain),
                            "{{ALIASES}}"@,
                            Seq::<char>::empty(),
                        ),
                        "{{ROOT}}"@,
                        root,
                    ),
                    "{{PHP_VERSION}}"@,
                    php,
                ),
                "{{USER}}"@,
                user,
            ),
            "{{SSL_REDIRECT}}"@,
            ssl_redirect,
        ),
        "{{SSL_CONFIG}}"@,
        ssl_config,
    )
}

/// The runtime-pool template with its placeholders substituted.
pub open spec fn spec_render_php(stub: Seq<char>, user: Seq<char>, php: Seq<char>) -> Seq<char> {
    spec_replace(spec_replace(stub, "{{USER}}"@, user), "{{PHP_VERSION}}"@, php)
}

/// Substitute the plan's values into the two loaded templates, yielding
/// the rendered web-server and runtime-pool configurations.
pub fn render_vhost_configs(plan: &VhostPlan, nginx_stub: &str, php_stub: &str) -> (r: (
    String,
    String,
))
    ensures
        r.0@ == spec_render_nginx(
            nginx_stub@,
            plan.domain@,
            plan.root@,
            plan.php_version@,
            plan.user@,
            spec_ssl_redirect(plan.has_ssl),
            spec_ssl_config(plan.has_ssl, plan.ssl_cert@, plan.ssl_key@),
        ),
        r.1@ == spec_render_php(php_stub@, plan.user@, plan.php_version@),
{
    proof {
        reveal_strlit("");
        assert(""@ =~= Seq::<char>::empty());
    }
    let ssl_redirect: &str = if plan.has_ssl {
        "return 301 https://$host$request_uri;"
    } else {
        ""
    };
    let ssl_config: String = if plan.has_ssl {
        s2("listen 443 ssl;\n    ssl_certificate ", plan.ssl_cert.as_str()).concat(
            ";\n    ssl_certificate_key ",
        ).concat(plan.ssl_key.as_str()).concat(";")
    } else {
        String::new()
    };

    let step1 = replace(nginx_stub, "{{DOMAIN}}", plan.domain.as_str());
    let step2 = replace(step1.as_str(), "{{ALIASES}}", "");
    let step3 = replace(step2.as_str(), "{{ROOT}}", plan.root.as_str());
    let step4 = replace(step3.as_str(), "{{PHP_VERSION}}", plan.php_version.as_str());
    let step5 = replace(step4.as_str(), "{{USER}}", plan.user.as_str());
    let step6 = replace(step5.as_str(), "{{SSL_REDIRECT}}", ssl_redirect);
    let nginx_conf = replace(step6.as_str(), "{{SSL_CONFIG}}", ssl_config.as_str());

    let php1 = replace(php_stub, "{{USER}}", plan.user.as_str());
    let php_conf = replace(php1.as_str(), "{{PHP_VERSION}}", plan.php_version.as_str());

    (nginx_conf, php_conf)
}

/// The fail-fast account check: the first step of the create sequence.
pub fn vhost_user_check(user: &str, exists: bool) -> (r: Result<(), String>)
    ensures
        exists ==> r is Ok,
        !exists ==> (r matches Err(m) && m@ == "User '"@ + user@
            + "' does not exist in the system"@),
{
    if exists {
        Ok(())
    } else {
        Err(s3("User '", user, "' does not exist in the system"))
    }
}

/// The runtime-pool directory check: its absence means the requested
/// runtime version is not installed, named in the failure.
pub fn vhost_pool_dir_check(plan: &VhostPlan, pool_dir_exists: bool) -> (r: Result<(), String>)
    ensures
        pool_dir_exists ==> r is Ok,
        !pool_dir_exists ==> (r matches Err(m) && m@ == "PHP-FPM pool directory "@
            + plan.php_pool_dir@ + " does not exist. Is PHP "@ + plan.php_version@
            + " installed?"@),
{
    if pool_dir_exists {
        Ok(())
    } else {
        Err(
            s2("PHP-FPM pool directory ", plan.php_pool_dir.as_str()).concat(
                " does not exist. Is PHP ",
            ).concat(plan.php_version.as_str()).concat(" installed?"),
        )
    }
}

/// The three individually checked install steps, in their fixed order.
pub enum VhostInstallStep {
    MoveNginxConfig,
    EnableNginxConfig,
    MovePhpPoolConfig,
}

/// The answer for one install step: a failure names the step and the
/// exact destination path involved, so the operator can mend it by hand.
pub fn vhost_install_step_report(
    step: VhostInstallStep,
    plan: &VhostPlan,
    command_ok: bool,
) -> (r: Result<(), String>)
    ensures
        command_ok ==> r is Ok,
        !command_ok ==> (r matches Err(m) && m@ == (match step {
            VhostInstallStep::MoveNginxConfig => "Failed to move Nginx config to "@
                + plan.nginx_available@ + ". Ensure daemon has sudo access."@,
            VhostInstallStep::EnableNginxConfig => "Failed to enable Nginx config at "@
                + plan.nginx_enabled@ + ". Ensure daemon has sudo access."@,
            VhostInstallStep::MovePhpPoolConfig => "Failed to move PHP pool config to "@
                + plan.php_pool@ + ". Ensure daemon has sudo access."@,
        })),
{
    if command_ok {
        Ok(())
    } else {
        match step {
            VhostInstallStep::MoveNginxConfig => Err(
                s3(
                    "Failed to move Nginx config to ",
                    plan.nginx_available.as_str(),
                    ". Ensure daemon has sudo access.",
                ),
            ),
            VhostInstallStep::EnableNginxConfig => Err(
                s3(
                    "Failed to enable Nginx config at ",
                    plan.nginx_enabled.as_str(),
                    ". Ensure daemon has sudo access.",
                ),
            ),
            VhostInstallStep::MovePhpPoolConfig => Err(
                s3(
                    "Failed to move PHP pool config to ",
                    plan.php_pool.as_str(),
                    ". Ensure daemon has sudo access.",
                ),
            ),
        }
    }
}

/// The success answer once every create step has taken effect.
pub fn create_vhost_success(plan: &VhostPlan) -> (r: String)
    ensures
        r@ == "VHost created for "@ + plan.domain@ + ". Configs: "@ + plan.nginx_available@
            + ", "@ + plan.php_pool@,
{
    s6(
        "VHost created for ",
        plan.domain.as_str(),
        ". Configs: ",
        plan.nginx_available.as_str(),
        ", ",
        plan.php_pool.as_str(),
    )
}

/// The paths `delete_vhost` removes, tolerant of files already absent.
#[derive(Debug)]
pub struct VhostDeletePlan {
    pub domain: String,
    pub nginx_available: String,
    pub nginx_enabled: String,
    pub php_pool: String,
}

/// Validate the parameters of `delete_vhost` and lay out the paths to
/// remove; the runtime version falls back to its default when absent.
pub fn delete_vhost_plan(params: &JsonValue) -> (r: Result<VhostDeletePlan, String>)
    ensures
        spec_get_str(*params, "domain"@).is_none() ==> (r matches Err(m) && m@
            == "Missing domain"@),
        spec_get_str(*params, "domain"@).is_some() && spec_get_str(*params, "user"@).is_none()
            ==> (r matches Err(m) && m@ == "Missing user"@),
        spec_get_str(*params, "domain"@).is_some() && spec_get_str(*params, "user"@).is_some()
            ==> (r matches Ok(p) && {
            let domain = spec_get_str(*params, "domain"@).unwrap();
            let user = spec_get_str(*params, "user"@).unwrap();
            let php = spec_str_or(*params, "php_version"@, "8.4"@);
            &&& p.domain@ == domain
            &&& p.nginx_available@ == "/etc/nginx/sites-available/"@ + domain
            &&& p.nginx_enabled@ == "/etc/nginx/sites-enabled/"@ + domain
            &&& p.php_pool@ == "/etc/php/"@ + php + "/fpm/pool.d/"@ + user + ".conf"@
        }),
{
    let domain = match get_str(params, "domain") {
        Some(s) => s.clone(),
        None => {
            return Err(String::from_str("Missing domain"));
        },
    };
    let user = match get_str(params, "user") {
        Some(s) => s.clone(),
        None => {
            return Err(String::from_str("Missing user"));
        },
    };
    let php_version = str_or(params, "php_version", "8.4");

    let nginx_available = s2("/etc/nginx/sites-available/", domain.as_str());
    let nginx_enabled = s2("/etc/nginx/sites-enabled/", domain.as_str());
    let php_pool = s2("/etc/php/", php_version.as_str()).concat("/fpm/pool.d/").concat(
        user.as_str(),
    ).concat(".conf");
    Ok(VhostDeletePlan { domain, nginx_available, nginx_enabled, php_pool })
}

/// What `delete_vhost` answers, as a function of the domain and the two
/// reload outcomes alone — the filesystem's prior contents play no part.
pub open spec fn spec_delete_vhost_response(
    domain: Seq<char>,
    nginx_reload_ok: bool,
    php_reload_ok: bool,
) -> Result<Seq<char>, Seq<char>> {
    if nginx_reload_ok && php_reload_ok {
        Ok("VHost deleted for "@ + domain)
    } else {
        Err("Failed to reload one or more services"@)
    }
}

/// The answer for `delete_vhost` once the removals (tolerant of absent
/// files) and the reload have run.
pub fn delete_vhost_report(
    plan: &VhostDeletePlan,
    nginx_reload_ok: bool,
    php_reload_ok: bool,
) -> (r: Result<String, String>)
    ensures
        (r matches Ok(m) && spec_delete_vhost_response(plan.domain@, nginx_reload_ok, php_reload_ok)
            == Ok::<Seq<char>, Seq<char>>(m@)) || (r matches Err(m)
            && spec_delete_vhost_response(plan.domain@, nginx_reload_ok, php_reload_ok)
            == Err::<Seq<char>, Seq<char>>(m@)),
        nginx_reload_ok && php_reload_ok ==> r is Ok,
{
    if nginx_reload_ok && php_reload_ok {
        Ok(s2("VHost deleted for ", plan.domain.as_str()))
    } else {
        Err(String::from_str("Failed to reload one or more services"))
    }
}

/// Deleting a vhost is delete-if-exists: the removal steps tolerate
/// already-absent files and the answer is a function of the domain and
/// the reload outcomes alone, so deleting the same domain twice in a row
/// — the second time with nothing left on disk — succeeds both times,
/// with the same answer.
pub proof fn lemma_delete_vhost_idempotent(domain: Seq<char>)
    ensures
        spec_delete_vhost_response(domain, true, true) == Ok::<Seq<char>, Seq<char>>(
            "VHost deleted for "@ + domain,
        ),
{
}

} // verus!
