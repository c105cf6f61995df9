use super_daemon::json::JsonValue;
use super_daemon::vhost::{
    create_vhost_plan, create_vhost_success, delete_vhost_plan, delete_vhost_report,
    render_vhost_configs, vhost_install_step_report, vhost_pool_dir_check, vhost_user_check,
    VhostInstallStep,
};

fn vhost_params() -> JsonValue {
    JsonValue::Obj(vec![
        ("domain".to_string(), JsonValue::Str("example.com".to_string())),
        ("user".to_string(), JsonValue::Str("user1".to_string())),
        ("root".to_string(), JsonValue::Str("/home/user1/public_html".to_string())),
        ("php_version".to_string(), JsonValue::Str("8.4".to_string())),
    ])
}

#[test]
fn create_plan_lays_out_every_path() {
    let plan = create_vhost_plan(&vhost_params()).unwrap();
    assert_eq!(plan.nginx_available, "/etc/nginx/sites-available/example.com");
    assert_eq!(plan.nginx_enabled, "/etc/nginx/sites-enabled/example.com");
    assert_eq!(plan.php_pool_dir, "/etc/php/8.4/fpm/pool.d");
    assert_eq!(plan.php_pool, "/etc/php/8.4/fpm/pool.d/user1.conf");
    assert_eq!(plan.temp_nginx, "/tmp/nginx_example.com.conf");
    assert_eq!(plan.temp_php, "/tmp/php_user1.conf");
    assert!(!plan.has_ssl);
}

#[test]
fn create_plan_flattens_spaces_in_the_account_name() {
    let params = JsonValue::Obj(vec![
        ("domain".to_string(), JsonValue::Str("d.com".to_string())),
        ("user".to_string(), JsonValue::Str("my user".to_string())),
        ("root".to_string(), JsonValue::Str("/home/my user".to_string())),
        ("php_version".to_string(), JsonValue::Str("8.4".to_string())),
    ]);
    let plan = create_vhost_plan(&params).unwrap();
    assert_eq!(plan.temp_php, "/tmp/php_my_user.conf");
}

#[test]
fn create_plan_names_the_first_missing_field() {
    let empty = JsonValue::Obj(vec![]);
    assert_eq!(create_vhost_plan(&empty).unwrap_err(), "Missing domain");
    let only_domain = JsonValue::Obj(vec![(
        "domain".to_string(),
        JsonValue::Str("d.com".to_string()),
    )]);
    assert_eq!(create_vhost_plan(&only_domain).unwrap_err(), "Missing user");
}

#[test]
fn absent_account_fails_fast_with_its_name() {
    let r = vhost_user_check("ghost", false);
    let msg = r.unwrap_err();
    assert_eq!(msg, "User 'ghost' does not exist in the system");
    assert!(msg.contains("ghost"));
    assert!(msg.contains("does not exist"));
}

#[test]
fn present_account_passes_the_check() {
    assert!(vhost_user_check("user1", true).is_ok());
}

#[test]
fn absent_pool_directory_names_the_runtime_version() {
    let plan = create_vhost_plan(&vhost_params()).unwrap();
    assert_eq!(
        vhost_pool_dir_check(&plan, false).unwrap_err(),
        "PHP-FPM pool directory /etc/php/8.4/fpm/pool.d does not exist. Is PHP 8.4 installed?"
    );
    assert!(vhost_pool_dir_check(&plan, true).is_ok());
}

#[test]
fn templates_render_with_placeholders_substituted() {
    let plan = create_vhost_plan(&vhost_params()).unwrap();
    let nginx_stub = "server {{DOMAIN}} root {{ROOT}} user {{USER}} php {{PHP_VERSION}} a[{{ALIASES}}] r[{{SSL_REDIRECT}}] c[{{SSL_CONFIG}}]";
    let php_stub = "[{{USER}}] php{{PHP_VERSION}}";
    let (nginx_conf, php_conf) = render_vhost_configs(&plan, nginx_stub, php_stub);
    assert_eq!(
        nginx_conf,
        "server example.com root /home/user1/public_html user user1 php 8.4 a[] r[] c[]"
    );
    assert_eq!(php_conf, "[user1] php8.4");
}

#[test]
fn templates_render_tls_fragments_when_material_is_given() {
    let params = JsonValue::Obj(vec![
        ("domain".to_string(), JsonValue::Str("d.com".to_string())),
        ("user".to_string(), JsonValue::Str("u".to_string())),
        ("root".to_string(), JsonValue::Str("/home/u".to_string())),
        ("php_version".to_string(), JsonValue::Str("8.4".to_string())),
        ("has_ssl".to_string(), JsonValue::Bool(true)),
        ("ssl_certificate_path".to_string(), JsonValue::Str("/c.pem".to_string())),
        ("ssl_key_path".to_string(), JsonValue::Str("/k.pem".to_string())),
    ]);
    let plan = create_vhost_plan(&params).unwrap();
    let (nginx_conf, _) = render_vhost_configs(&plan, "{{SSL_REDIRECT}}|{{SSL_CONFIG}}", "x");
    assert_eq!(
        nginx_conf,
        "return 301 https://$host$request_uri;|listen 443 ssl;\n    ssl_certificate /c.pem;\n    ssl_certificate_key /k.pem;"
    );
}

#[test]
fn failing_pool_move_names_the_step_and_path_after_earlier_steps_stood() {
    let plan = create_vhost_plan(&vhost_params()).unwrap();
    // The two earlier install steps have taken effect; nothing undoes them.
    assert!(vhost_install_step_report(VhostInstallStep::MoveNginxConfig, &plan, true).is_ok());
    assert!(vhost_install_step_report(VhostInstallStep::EnableNginxConfig, &plan, true).is_ok());
    let err =
        vhost_install_step_report(VhostInstallStep::MovePhpPoolConfig, &plan, false).unwrap_err();
    assert_eq!(
        err,
        "Failed to move PHP pool config to /etc/php/8.4/fpm/pool.d/user1.conf. Ensure daemon has sudo access."
    );
}

#[test]
fn failing_nginx_move_names_its_destination() {
    let plan = create_vhost_plan(&vhost_params()).unwrap();
    assert_eq!(
        vhost_install_step_report(VhostInstallStep::MoveNginxConfig, &plan, false).unwrap_err(),
        "Failed to move Nginx config to /etc/nginx/sites-available/example.com. Ensure daemon has sudo access."
    );
    assert_eq!(
        vhost_install_step_report(VhostInstallStep::EnableNginxConfig, &plan, false).unwrap_err(),
        "Failed to enable Nginx config at /etc/nginx/sites-enabled/example.com. Ensure daemon has sudo access."
    );
}

#[test]
fn create_success_names_both_configs() {
    let plan = create_vhost_plan(&vhost_params()).unwrap();
    assert_eq!(
        create_vhost_success(&plan),
        "VHost created for example.com. Configs: /etc/nginx/sites-available/example.com, /etc/php/8.4/fpm/pool.d/user1.conf"
    );
}

#[test]
fn delete_plan_defaults_the_runtime_version() {
    let params = JsonValue::Obj(vec![
        ("domain".to_string(), JsonValue::Str("example.com".to_string())),
        ("user".to_string(), JsonValue::Str("user1".to_string())),
    ]);
    let plan = delete_vhost_plan(&params).unwrap();
    assert_eq!(plan.nginx_available, "/etc/nginx/sites-available/example.com");
    assert_eq!(plan.nginx_enabled, "/etc/nginx/sites-enabled/example.com");
    assert_eq!(plan.php_pool, "/etc/php/8.4/fpm/pool.d/user1.conf");
}

#[test]
fn deleting_twice_succeeds_both_times() {
    let params = JsonValue::Obj(vec![
        ("domain".to_string(), JsonValue::Str("gone.com".to_string())),
        ("user".to_string(), JsonValue::Str("user1".to_string())),
    ]);
    // First delete: the artifacts are present and removed.
    let plan1 = delete_vhost_plan(&params).unwrap();
    let first = delete_vhost_report(&plan1, true, true);
    // Second delete: nothing is left on disk; the removals tolerate that
    // and the answer is the same success.
    let plan2 = delete_vhost_plan(&params).unwrap();
    let second = delete_vhost_report(&plan2, true, true);
    assert_eq!(first, Ok("VHost deleted for gone.com".to_string()));
    assert_eq!(second, first);
}

#[test]
fn delete_reports_a_reload_failure() {
    let params = JsonValue::Obj(vec![
        ("domain".to_string(), JsonValue::Str("d.com".to_string())),
        ("user".to_string(), JsonValue::Str("u".to_string())),
    ]);
    let plan = delete_vhost_plan(&params).unwrap();
    assert_eq!(
        delete_vhost_report(&plan, true, false),
        Err("Failed to reload one or more services".to_string())
    );
}
