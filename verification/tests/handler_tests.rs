use super_daemon::backup::{
    backup_exists_check, create_backup_plan, create_backup_report, restore_backup_plan,
    restore_backup_report,
};
use super_daemon::database::{
    create_database_plan, create_database_step_report, create_database_success,
    create_db_backup_plan, create_db_backup_report, database_size_report, database_size_sql,
    delete_database_plan, delete_database_report, grant_step_report, restore_db_backup_plan,
    restore_db_backup_report,
};
use super_daemon::files::{
    directory_size_report, path_exists_check, render_file_entries, rename_file_plan,
    write_file_plan, FileEntry,
};
use super_daemon::json::JsonValue;
use super_daemon::listing::{cron_job_lines, json_stems, strings_to_json_array, vhost_domains};
use super_daemon::records::{
    create_ftp_user_plan, create_ftp_user_success, delete_dns_zone_plan,
    delete_email_account_plan, delete_ftp_user_plan, list_cron_jobs_plan,
    update_cron_jobs_plan, update_cron_jobs_report, update_dns_zone_plan,
    update_email_account_plan,
};
use super_daemon::services::{
    get_logs_plan, get_logs_report, get_service_logs_plan, get_service_logs_report,
    log_missing_message, reload_report, render_status, restart_service_plan,
    restart_service_report, service_names, tail_args,
};
use super_daemon::ssl::{request_ssl_cert_plan, ssl_command_check, ssl_files_check};

fn str_field(key: &str, value: &str) -> (String, JsonValue) {
    (key.to_string(), JsonValue::Str(value.to_string()))
}

#[test]
fn database_plan_builds_both_statements() {
    let params = JsonValue::Obj(vec![
        str_field("name", "shop"),
        str_field("user", "alice"),
        str_field("password", "pw1"),
    ]);
    let plan = create_database_plan(&params).unwrap();
    assert_eq!(plan.sql_create, "CREATE DATABASE IF NOT EXISTS `shop`");
    assert_eq!(
        plan.sql_grant,
        "CREATE USER IF NOT EXISTS 'alice'@'localhost' IDENTIFIED BY 'pw1'; GRANT ALL PRIVILEGES ON `shop`.* TO 'alice'@'localhost'; FLUSH PRIVILEGES;"
    );
    assert_eq!(plan.meta_path, "/var/lib/supercp/databases/shop.json");
    match &plan.meta {
        JsonValue::Obj(fs) => {
            assert_eq!(fs.len(), 3);
            assert_eq!(fs[0].0, "name");
            assert_eq!(fs[2].0, "type");
            assert!(matches!(&fs[2].1, JsonValue::Str(s) if s == "mysql"));
        },
        _ => panic!("metadata is not an object"),
    }
    assert_eq!(create_database_success("shop", "alice"), "Database shop created and user alice granted access");
}

#[test]
fn database_plan_rejects_other_engines_and_missing_fields() {
    let params = JsonValue::Obj(vec![
        str_field("name", "shop"),
        str_field("user", "alice"),
        str_field("password", "pw"),
        str_field("type", "postgres"),
    ]);
    assert_eq!(create_database_plan(&params).unwrap_err(), "Only MySQL is supported for now");
    assert_eq!(
        create_database_plan(&JsonValue::Obj(vec![])).unwrap_err(),
        "Missing name"
    );
    assert_eq!(
        create_database_plan(&JsonValue::Obj(vec![str_field("name", "shop")])).unwrap_err(),
        "Missing user"
    );
}

#[test]
fn database_step_failures_name_their_subject() {
    assert_eq!(
        create_database_step_report("shop", false).unwrap_err(),
        "Failed to create database shop"
    );
    assert_eq!(
        grant_step_report("alice", false).unwrap_err(),
        "Failed to create user or grant privileges for alice"
    );
    assert!(create_database_step_report("shop", true).is_ok());
    assert!(grant_step_report("alice", true).is_ok());
}

#[test]
fn delete_database_drops_and_removes_metadata() {
    let params = JsonValue::Obj(vec![str_field("name", "shop")]);
    let plan = delete_database_plan(&params).unwrap();
    assert_eq!(plan.sql_drop, "DROP DATABASE IF EXISTS `shop`");
    assert_eq!(plan.meta_path, "/var/lib/supercp/databases/shop.json");
    assert_eq!(delete_database_report("shop", true), Ok("Database shop deleted".to_string()));
    assert_eq!(
        delete_database_report("shop", false),
        Err("Failed to drop database shop".to_string())
    );
}

#[test]
fn database_size_reads_the_summed_column() {
    assert_eq!(
        database_size_sql("shop"),
        "SELECT SUM(data_length + index_length) FROM information_schema.TABLES WHERE table_schema = 'shop'"
    );
    assert_eq!(database_size_report(true, "16384\n", ""), Ok(16384));
    assert_eq!(database_size_report(true, "NULL\n", ""), Ok(0));
    assert_eq!(database_size_report(true, "", ""), Ok(0));
    assert_eq!(database_size_report(true, "garbage", ""), Ok(0));
    assert_eq!(
        database_size_report(false, "", "access denied"),
        Err("Failed to get database size: access denied".to_string())
    );
}

#[test]
fn database_backup_targets_are_stamped() {
    let params = JsonValue::Obj(vec![str_field("db_name", "shop")]);
    let plan = create_db_backup_plan(&params, 1700000000).unwrap();
    assert_eq!(plan.target_path, "/var/lib/supercp/backups/shop_1700000000.sql");
    assert_eq!(
        create_db_backup_report(&plan, true, ""),
        Ok("/var/lib/supercp/backups/shop_1700000000.sql".to_string())
    );
    assert_eq!(
        create_db_backup_report(&plan, false, "dump failed"),
        Err("Failed to create database backup: dump failed".to_string())
    );
}

#[test]
fn database_restore_names_dump_and_database() {
    let params = JsonValue::Obj(vec![
        str_field("path", "/var/lib/supercp/backups/shop_1.sql"),
        str_field("db_name", "shop"),
    ]);
    let plan = restore_db_backup_plan(&params).unwrap();
    assert_eq!(
        restore_db_backup_report(&plan, true),
        Ok("Database shop restored from /var/lib/supercp/backups/shop_1.sql".to_string())
    );
    assert_eq!(
        restore_db_backup_report(&plan, false),
        Err("Failed to restore database shop".to_string())
    );
}

#[test]
fn file_backup_splits_the_source_path() {
    let params = JsonValue::Obj(vec![
        str_field("name", "site"),
        str_field("source_path", "/home/user1/public_html"),
    ]);
    let plan = create_backup_plan(&params).unwrap();
    assert_eq!(plan.target_path, "/var/lib/supercp/backups/site.tar.gz");
    assert_eq!(
        plan.args,
        vec!["-czf", "/var/lib/supercp/backups/site.tar.gz", "-C", "/home/user1", "public_html"]
    );
    assert_eq!(
        create_backup_report(&plan, true),
        Ok("/var/lib/supercp/backups/site.tar.gz".to_string())
    );
    assert_eq!(
        create_backup_report(&plan, false),
        Err("Failed to create backup archive".to_string())
    );
}

#[test]
fn restore_requires_the_backup_file() {
    assert_eq!(backup_exists_check(false), Err("Backup file not found".to_string()));
    assert!(backup_exists_check(true).is_ok());
    let params = JsonValue::Obj(vec![
        str_field("path", "/var/lib/supercp/backups/site.tar.gz"),
        str_field("target_path", "/home/user1"),
    ]);
    let plan = restore_backup_plan(&params).unwrap();
    assert_eq!(
        plan.args,
        vec!["-xzf", "/var/lib/supercp/backups/site.tar.gz", "-C", "/home/user1"]
    );
    assert_eq!(restore_backup_report(&plan, true), Ok("Backup restored to /home/user1".to_string()));
    assert_eq!(
        restore_backup_report(&plan, false),
        Err("Failed to restore backup archive".to_string())
    );
}

#[test]
fn restart_accepts_only_the_fixed_services() {
    let nginx = JsonValue::Obj(vec![str_field("service", "nginx")]);
    assert_eq!(restart_service_plan(&nginx), Ok("nginx".to_string()));
    let sshd = JsonValue::Obj(vec![str_field("service", "sshd")]);
    assert_eq!(restart_service_plan(&sshd), Err("Service not allowed".to_string()));
    assert_eq!(
        restart_service_plan(&JsonValue::Obj(vec![])),
        Err("Missing service".to_string())
    );
    assert_eq!(
        restart_service_report("nginx", true),
        Ok("Service nginx restarted successfully".to_string())
    );
    assert_eq!(
        restart_service_report("nginx", false),
        Err("Failed to restart service nginx".to_string())
    );
}

#[test]
fn reload_needs_both_services() {
    assert_eq!(reload_report(true, true), Ok("Services reloaded successfully".to_string()));
    assert_eq!(
        reload_report(true, false),
        Err("Failed to reload one or more services".to_string())
    );
    assert_eq!(
        reload_report(false, true),
        Err("Failed to reload one or more services".to_string())
    );
}

#[test]
fn status_derives_running_from_the_probe() {
    assert_eq!(service_names(), vec!["nginx", "php8.4-fpm", "mysql", "redis-server"]);
    let probes = vec![
        "active\n".to_string(),
        "inactive\n".to_string(),
        "active".to_string(),
        "".to_string(),
    ];
    match render_status(&probes) {
        JsonValue::Obj(fields) => {
            assert_eq!(fields.len(), 5);
            assert!(matches!(&fields[0].1, JsonValue::Str(s) if s == "running"));
            assert!(matches!(&fields[1].1, JsonValue::Str(s) if s == "stopped"));
            assert!(matches!(&fields[2].1, JsonValue::Str(s) if s == "running"));
            assert!(matches!(&fields[3].1, JsonValue::Str(s) if s == "stopped"));
            assert_eq!(fields[4].0, "daemon");
            assert!(matches!(&fields[4].1, JsonValue::Str(s) if s == "running"));
        },
        _ => panic!("status is not an object"),
    }
}

#[test]
fn log_queries_map_types_to_files() {
    let q = get_logs_plan(&JsonValue::Obj(vec![]));
    assert_eq!(q.log_path, "/home/super/getsupercp/storage/logs/super-daemon.log");
    assert_eq!(q.lines, 50);
    let q = get_logs_plan(&JsonValue::Obj(vec![
        str_field("type", "nginx_error"),
        ("lines".to_string(), JsonValue::UInt(10)),
    ]));
    assert_eq!(q.log_path, "/var/log/supercp/nginx_error.log");
    assert_eq!(q.lines, 10);
    assert_eq!(tail_args(10, q.log_path.as_str()), vec![
        "-n",
        "10",
        "/var/log/supercp/nginx_error.log"
    ]);
    assert_eq!(
        log_missing_message("/var/log/x.log"),
        "Log file /var/log/x.log not found"
    );
}

#[test]
fn log_reads_treat_empty_output_as_a_result() {
    assert_eq!(get_logs_report(true, "", ""), Ok("Log is empty".to_string()));
    assert_eq!(get_logs_report(true, "line1\n", ""), Ok("line1\n".to_string()));
    assert_eq!(
        get_logs_report(false, "", "denied"),
        Err("Failed to read logs: denied".to_string())
    );
}

#[test]
fn service_log_queries_reject_unknown_services() {
    let q = get_service_logs_plan(&JsonValue::Obj(vec![str_field("service", "mysql")])).unwrap();
    assert_eq!(q.log_path, "/var/log/mysql/error.log");
    assert_eq!(
        get_service_logs_plan(&JsonValue::Obj(vec![str_field("service", "cups")])).unwrap_err(),
        "Unknown service: cups"
    );
    assert_eq!(
        get_service_logs_plan(&JsonValue::Obj(vec![])).unwrap_err(),
        "Missing service"
    );
    assert_eq!(
        get_service_logs_report(false, "", "boom"),
        Err("Failed to read service logs: boom".to_string())
    );
    assert_eq!(get_service_logs_report(true, "", ""), Ok("Log is empty".to_string()));
}

#[test]
fn ftp_records_are_planned_and_named() {
    let params = JsonValue::Obj(vec![
        str_field("username", "ftp1"),
        str_field("password", "pw"),
        str_field("homedir", "/home/ftp1"),
    ]);
    let plan = create_ftp_user_plan(&params).unwrap();
    assert_eq!(plan.meta_path, "/etc/supercp/ftp_users/ftp1.json");
    assert_eq!(create_ftp_user_success(&plan), "FTP user ftp1 created with homedir /home/ftp1");
    let (path, message) =
        delete_ftp_user_plan(&JsonValue::Obj(vec![str_field("username", "ftp1")])).unwrap();
    assert_eq!(path, "/etc/supercp/ftp_users/ftp1.json");
    assert_eq!(message, "FTP user ftp1 deleted");
}

#[test]
fn email_records_carry_the_quota() {
    let params = JsonValue::Obj(vec![
        str_field("email", "a@b.c"),
        str_field("password", "pw"),
        ("quota_mb".to_string(), JsonValue::UInt(512)),
    ]);
    let plan = update_email_account_plan(&params).unwrap();
    assert_eq!(plan.account_path, "/var/mail/supercp/a@b.c.json");
    assert_eq!(plan.message, "Email account a@b.c updated (quota: 512MB)");
    match &plan.meta {
        JsonValue::Obj(fs) => {
            assert_eq!(fs[1].0, "quota_mb");
            assert!(matches!(fs[1].1, JsonValue::UInt(512)));
        },
        _ => panic!("metadata is not an object"),
    }
    let (path, message) =
        delete_email_account_plan(&JsonValue::Obj(vec![str_field("email", "a@b.c")])).unwrap();
    assert_eq!(path, "/var/mail/supercp/a@b.c.json");
    assert_eq!(message, "Email account a@b.c deleted");
}

#[test]
fn dns_zone_renders_header_and_records() {
    let record1 = JsonValue::Obj(vec![
        str_field("name", "www"),
        str_field("type", "A"),
        str_field("value", "203.0.113.7"),
        ("ttl".to_string(), JsonValue::UInt(600)),
    ]);
    let record2 = JsonValue::Obj(vec![
        str_field("type", "MX"),
        str_field("value", "mail.example.com."),
        ("priority".to_string(), JsonValue::UInt(10)),
    ]);
    let params = JsonValue::Obj(vec![
        str_field("domain", "example.com"),
        ("records".to_string(), JsonValue::Arr(vec![record1, record2])),
    ]);
    let plan = update_dns_zone_plan(&params).unwrap();
    assert_eq!(plan.zone_path, "/etc/supercp/dns/example.com.zone");
    assert_eq!(
        plan.content,
        "$ORIGIN example.com.\n$TTL 3600\n@ IN SOA ns1.supercp.com. admin.supercp.com. ( 2026010301 3600 600 1209600 3600 )\nwww 600 IN A 203.0.113.7\n@ 3600 IN MX 10 mail.example.com.\n"
    );
    assert_eq!(plan.message, "DNS zone updated for example.com");
    let (path, message) =
        delete_dns_zone_plan(&JsonValue::Obj(vec![str_field("domain", "example.com")])).unwrap();
    assert_eq!(path, "/etc/supercp/dns/example.com.zone");
    assert_eq!(message, "DNS zone deleted for example.com");
}

#[test]
fn dns_zone_requires_domain_and_records() {
    assert_eq!(
        update_dns_zone_plan(&JsonValue::Obj(vec![])).unwrap_err(),
        "Missing domain"
    );
    assert_eq!(
        update_dns_zone_plan(&JsonValue::Obj(vec![str_field("domain", "d.com")])).unwrap_err(),
        "Missing records"
    );
}

#[test]
fn cron_files_render_one_line_per_job() {
    let job1 = JsonValue::Obj(vec![
        str_field("schedule", "* * * * *"),
        str_field("command", "echo hi"),
    ]);
    let job2 = JsonValue::Obj(vec![str_field("command", "true")]);
    let params = JsonValue::Obj(vec![
        str_field("user", "user1"),
        ("jobs".to_string(), JsonValue::Arr(vec![job1, job2])),
    ]);
    let plan = update_cron_jobs_plan(&params).unwrap();
    assert_eq!(plan.cron_path, "/var/spool/supercp/cron/user1.cron");
    assert_eq!(plan.content, "* * * * * echo hi\n true\n");
    assert_eq!(plan.args, vec!["-u", "user1", "/var/spool/supercp/cron/user1.cron"]);
    assert_eq!(
        update_cron_jobs_report("user1", true),
        Ok("Cron jobs updated and applied for user1".to_string())
    );
    assert_eq!(
        update_cron_jobs_report("user1", false),
        Err("Failed to apply crontab for user1".to_string())
    );
    assert_eq!(
        list_cron_jobs_plan(&JsonValue::Obj(vec![str_field("user", "user1")])),
        Ok("/var/spool/supercp/cron/user1.cron".to_string())
    );
    assert_eq!(cron_job_lines("* * * * * echo hi\n\n  \n@daily true\n"), vec![
        "* * * * * echo hi",
        "@daily true"
    ]);
}

#[test]
fn ssl_plans_and_checks_follow_the_issuance_tool() {
    let params = JsonValue::Obj(vec![str_field("domain", "example.com")]);
    let plan = request_ssl_cert_plan(&params).unwrap();
    assert_eq!(plan.email, "admin@example.com");
    assert_eq!(plan.cert_path, "/etc/letsencrypt/live/example.com/fullchain.pem");
    assert_eq!(plan.key_path, "/etc/letsencrypt/live/example.com/privkey.pem");
    assert_eq!(
        plan.args,
        vec![
            "-n",
            "certbot",
            "certonly",
            "--non-interactive",
            "--agree-tos",
            "--nginx",
            "-d",
            "example.com",
            "-m",
            "admin@example.com",
            "--register-unsafely-without-email"
        ]
    );
    assert!(ssl_command_check(&plan, true, "").is_ok());
    assert!(ssl_command_check(&plan, false, "Certificate not due for renewal").is_ok());
    assert!(ssl_command_check(&plan, false, "Cert already exists").is_ok());
    assert_eq!(
        ssl_command_check(&plan, false, "rate limited").unwrap_err(),
        "Failed to request SSL certificate for example.com: rate limited"
    );
    assert_eq!(
        ssl_files_check(&plan, true, true),
        Ok("SSL certificate requested and configured for example.com via Let's Encrypt".to_string())
    );
    assert_eq!(
        ssl_files_check(&plan, true, false),
        Err("Certificate files not found after certbot execution for example.com".to_string())
    );
}

#[test]
fn missing_directory_is_an_error_not_a_zero_size() {
    let r = path_exists_check(false);
    assert_eq!(r, Err("Path does not exist".to_string()));
    assert!(path_exists_check(true).is_ok());
}

#[test]
fn directory_size_reads_the_first_column() {
    assert_eq!(directory_size_report(true, "4096\t/home/user1\n", ""), Ok(4096));
    assert_eq!(directory_size_report(true, "", ""), Ok(0));
    assert_eq!(
        directory_size_report(false, "", "du: cannot access"),
        Err("Failed to get directory size: du: cannot access".to_string())
    );
}

#[test]
fn write_and_rename_plans_are_sandboxed() {
    let w = write_file_plan(&JsonValue::Obj(vec![
        str_field("path", "user1/a.txt"),
        str_field("content", "hello"),
    ]))
    .unwrap();
    assert_eq!(w.path, "/home/user1/a.txt");
    assert_eq!(w.content, "hello");
    assert_eq!(
        write_file_plan(&JsonValue::Obj(vec![str_field("path", "u/a.txt")])).unwrap_err(),
        "Missing content"
    );
    assert_eq!(
        write_file_plan(&JsonValue::Obj(vec![
            str_field("path", "/etc/x"),
            str_field("content", "h"),
        ]))
        .unwrap_err(),
        "Access denied: Path must be within /home"
    );
    let r = rename_file_plan(&JsonValue::Obj(vec![
        str_field("from", "user1/a.txt"),
        str_field("to", "user1/b.txt"),
    ]))
    .unwrap();
    assert_eq!(r.from, "/home/user1/a.txt");
    assert_eq!(r.to, "/home/user1/b.txt");
    assert_eq!(
        rename_file_plan(&JsonValue::Obj(vec![str_field("to", "x")])).unwrap_err(),
        "Missing from path"
    );
    assert_eq!(
        rename_file_plan(&JsonValue::Obj(vec![
            str_field("from", "user1/a.txt"),
            str_field("to", "/etc/b"),
        ]))
        .unwrap_err(),
        "Access denied: Path must be within /home"
    );
}

#[test]
fn directory_entries_render_with_octal_permissions() {
    let entries = vec![
        FileEntry {
            name: "public_html".to_string(),
            is_dir: true,
            size: 4096,
            modified: 1700000000,
            mode: 0o40755,
        },
        FileEntry {
            name: "notes.txt".to_string(),
            is_dir: false,
            size: 17,
            modified: 1700000001,
            mode: 0o100644,
        },
    ];
    match render_file_entries(&entries) {
        JsonValue::Arr(items) => {
            assert_eq!(items.len(), 2);
            match &items[0] {
                JsonValue::Obj(fs) => {
                    assert!(matches!(&fs[0].1, JsonValue::Str(s) if s == "public_html"));
                    assert!(matches!(&fs[1].1, JsonValue::Str(s) if s == "directory"));
                    assert!(matches!(fs[2].1, JsonValue::UInt(4096)));
                    assert!(matches!(&fs[4].1, JsonValue::Str(s) if s == "755"));
                },
                _ => panic!("entry is not an object"),
            }
            match &items[1] {
                JsonValue::Obj(fs) => {
                    assert!(matches!(&fs[1].1, JsonValue::Str(s) if s == "file"));
                    assert!(matches!(&fs[4].1, JsonValue::Str(s) if s == "644"));
                },
                _ => panic!("entry is not an object"),
            }
        },
        _ => panic!("listing is not an array"),
    }
}

#[test]
fn listings_filter_names_as_the_directories_are_read() {
    let names = vec![
        "shop.json".to_string(),
        "notes.txt".to_string(),
        "blog.json".to_string(),
        ".json".to_string(),
    ];
    assert_eq!(json_stems(&names), vec!["shop", "blog"]);
    let sites = vec![
        "example.com".to_string(),
        "default".to_string(),
        "shop.example.com".to_string(),
    ];
    assert_eq!(vhost_domains(&sites), vec!["example.com", "shop.example.com"]);
    match strings_to_json_array(&vec!["a".to_string(), "b".to_string()]) {
        JsonValue::Arr(items) => {
            assert_eq!(items.len(), 2);
            assert!(matches!(&items[0], JsonValue::Str(s) if s == "a"));
            assert!(matches!(&items[1], JsonValue::Str(s) if s == "b"));
        },
        _ => panic!("not an array"),
    }
}
