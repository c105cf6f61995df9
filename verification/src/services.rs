use vstd::prelude::*;
use vstd::string::StringExecFns;
use crate::json::{get_str, spec_get_str, spec_str_or, spec_u64_or, str_or, u64_or, JsonValue};
use crate::text::{s2, s3, spec_trim, spec_u64_digits, str_eq, trim, u64_to_string};

verus! {

/// Whether `s` names one of the services this daemon may act on.
pub open spec fn spec_service_allowed(s: Seq<char>) -> bool {
    s == "nginx"@ || s == "php8.4-fpm"@ || s == "mysql"@ || s == "redis-server"@
}

/// Validate the parameters of `restart_service`: the service must be
/// named and must be one of the fixed allowed services.
pub fn restart_service_plan(params: &JsonValue) -> (r: Result<String, String>)
    ensures
        match spec_get_str(*params, "service"@) {
            None => (r matches Err(m) && m@ == "Missing service"@),
            Some(s) => if spec_service_allowed(s) {
                r matches Ok(sv) && sv@ == s
            } else {
                r matches Err(m) && m@ == "Service not allowed"@
            },
        },
{
    let service = match get_str(params, "service") {
        Some(s) => s.clone(),
        None => {
            return Err(String::from_str("Missing service"));
        },
    };
    let allowed = str_eq(service.as_str(), "nginx") || str_eq(service.as_str(), "php8.4-fpm")
        || str_eq(service.as_str(), "mysql") || str_eq(service.as_str(), "redis-server");
    if !allowed {
        return Err(String::from_str("Service not allowed"));
    }
    Ok(service)
}

/// The answer for `restart_service` once the service manager has run.
pub fn restart_service_report(service: &str, command_ok: bool) -> (r: Result<String, String>)
    ensures
        command_ok ==> (r matches Ok(m) && m@ == "Service "@ + service@
            + " restarted successfully"@),
        !command_ok ==> (r matches Err(m) && m@ == "Failed to restart service "@ + service@),
{
    if command_ok {
        Ok(s3("Service ", service, " restarted successfully"))
    } else {
        Err(s2("Failed to restart service ", service))
    }
}

/// The answer for the reload workflow: both the web server's and the
/// runtime manager's reload must succeed.
pub fn reload_report(nginx_ok: bool, php_ok: bool) -> (r: Result<String, String>)
    ensures
        nginx_ok && php_ok ==> (r matches Ok(m) && m@ == "Services reloaded successfully"@),
        !(nginx_ok && php_ok) ==> (r matches Err(m) && m@
            == "Failed to reload one or more services"@),
{
    if nginx_ok && php_ok {
        Ok(String::from_str("Services reloaded successfully"))
    } else {
        Err(String::from_str("Failed to reload one or more services"))
    }
}

/// The services the status query polls, in order.
pub fn service_names() -> (r: Vec<String>)
    ensures
        r.deep_view() == seq!["nginx"@, "php8.4-fpm"@, "mysql"@, "redis-server"@],
{
    let mut names: Vec<String> = Vec::new();
    names.push(String::from_str("nginx"));
    names.push(String::from_str("php8.4-fpm"));
    names.push(String::from_str("mysql"));
    names.push(String::from_str("redis-server"));
    proof {
        assert(names.deep_view() =~= seq!["nginx"@, "php8.4-fpm"@, "mysql"@, "redis-server"@]);
    }
    names
}

/// What one probed service reports: running exactly when the service
/// manager's trimmed answer is `active`.
pub open spec fn spec_service_state(probe: Seq<char>) -> Seq<char> {
    if spec_trim(probe) == "active"@ {
        "running"@
    } else {
        "stopped"@
    }
}

/// The textual state for one probe output.
pub fn service_state(probe: &str) -> (r: String)
    ensures
        r@ == spec_service_state(probe@),
{
    if str_eq(trim(probe), "active") {
        String::from_str("running")
    } else {
        String::from_str("stopped")
    }
}

/// The wire value `get_status` answers with: one member per polled
/// service in order, then the daemon's own entry, always `running`.
pub fn render_status(probes: &Vec<String>) -> (r: JsonValue)
    requires
        probes@.len() == 4,
    ensures
        r matches JsonValue::Obj(fields) && {
            &&& fields@.len() == 5
            &&& fields@[0].0@ == "nginx"@
            &&& (fields@[0].1 matches JsonValue::Str(s) && s@ == spec_service_state(
                probes@[0]@,
            ))
            &&& fields@[1].0@ == "php8.4-fpm"@
            &&& (fields@[1].1 matches JsonValue::Str(s) && s@ == spec_service_state(
                probes@[1]@,
            ))
            &&& fields@[2].0@ == "mysql"@
            &&& (fields@[2].1 matches JsonValue::Str(s) && s@ == spec_service_state(
                probes@[2]@,
            ))
            &&& fields@[3].0@ == "redis-server"@
            &&& (fields@[3].1 matches JsonValue::Str(s) && s@ == spec_service_state(
                probes@[3]@,
            ))
            &&& fields@[4].0@ == "daemon"@
            &&& (fields@[4].1 matches JsonValue::Str(s) && s@ == "running"@)
        },
{
    let mut fields: Vec<(String, JsonValue)> = Vec::new();
    fields.push((String::from_str("nginx"), JsonValue::Str(service_state(probes[0].as_str()))));
    fields.push(
        (String::from_str("php8.4-fpm"), JsonValue::Str(service_state(probes[1].as_str()))),
    );
    fields.push((String::from_str("mysql"), JsonValue::Str(service_state(probes[2].as_str()))));
    fields.push(
        (String::from_str("redis-server"), JsonValue::Str(service_state(probes[3].as_str()))),
    );
    fields.push((String::from_str("daemon"), JsonValue::Str(String::from_str("running"))));
    JsonValue::Obj(fields)
}

/// The log file each log type is read from; unrecognized types fall back
/// to the daemon's own log.
pub open spec fn spec_log_path(log_type: Seq<char>) -> Seq<char> {
    if log_type == "nginx_access"@ {
        "/var/log/supercp/nginx_access.log"@
    } else if log_type == "nginx_error"@ {
        "/var/log/supercp/nginx_error.log"@
    } else if log_type == "php_error"@ {
        "/var/log/supercp/php_error.log"@
    } else {
        "/home/super/getsupercp/storage/logs/super-daemon.log"@
    }
}

/// One planned log read: the file and how many ending lines to fetch.
#[derive(Debug)]
pub struct LogQuery {
    pub log_path: String,
    pub lines: u64,
}

/// The plan for `get_logs`: type and line count both fall back to their
/// defaults, so this query never fails at validation.
pub fn get_logs_plan(params: &JsonValue) -> (r: LogQuery)
    ensures
        r.log_path@ == spec_log_path(spec_str_or(*params, "type"@, "daemon"@)),
        r.lines == spec_u64_or(*params, "lines"@, 50),
{
    let log_type = str_or(params, "type", "daemon");
    let lines = u64_or(params, "lines", 50);
    let log_path: String = if str_eq(log_type.as_str(), "nginx_access") {
        String::from_str("/var/log/supercp/nginx_access.log")
    } else if str_eq(log_type.as_str(), "nginx_error") {
        String::from_str("/var/log/supercp/nginx_error.log")
    } else if str_eq(log_type.as_str(), "php_error") {
        String::from_str("/var/log/supercp/php_error.log")
    } else {
        String::from_str("/home/super/getsupercp/storage/logs/super-daemon.log")
    };
    LogQuery { log_path, lines }
}

/// The plan for `get_service_logs`: the service must be named and known.
pub fn get_service_logs_plan(params: &JsonValue) -> (r: Result<LogQuery, String>)
    ensures
        spec_get_str(*params, "service"@).is_none() ==> (r matches Err(m) && m@
            == "Missing service"@),
        spec_get_str(*params, "service"@) matches Some(s) ==> (if s == "nginx"@ {
            r matches Ok(q) && q.log_path@ == "/var/log/supercp/nginx_error.log"@ && q.lines
                == spec_u64_or(*params, "lines"@, 50)
        } else if s == "php8.4-fpm"@ {
            r matches Ok(q) && q.log_path@ == "/var/log/supercp/php_error.log"@ && q.lines
                == spec_u64_or(*params, "lines"@, 50)
        } else if s == "mysql"@ {
            r matches Ok(q) && q.log_path@ == "/var/log/mysql/error.log"@ && q.lines
                == spec_u64_or(*params, "lines"@, 50)
        } else if s == "redis-server"@ {
            r matches Ok(q) && q.log_path@ == "/var/log/redis/redis-server.log"@ && q.lines
                == spec_u64_or(*params, "lines"@, 50)
        } else {
            r matches Err(m) && m@ == "Unknown service: "@ + s
        }),
{
    let service = match get_str(params, "service") {
        Some(s) => s.clone(),
        None => {
            return Err(String::from_str("Missing service"));
        },
    };
    let lines = u64_or(params, "lines", 50);
    let log_path: String = if str_eq(service.as_str(), "nginx") {
        String::from_str("/var/log/supercp/nginx_error.log")
    } else if str_eq(service.as_str(), "php8.4-fpm") {
        String::from_str("/var/log/supercp/php_error.log")
    } else if str_eq(service.as_str(), "mysql") {
        String::from_str("/var/log/mysql/error.log")
    } else if str_eq(service.as_str(), "redis-server") {
        String::from_str("/var/log/redis/redis-server.log")
    } else {
        return Err(s2("Unknown service: ", service.as_str()));
    };
    Ok(LogQuery { log_path, lines })
}

/// The argument vector for reading the last `lines` lines of a file.
pub fn tail_args(lines: u64, log_path: &str) -> (r: Vec<String>)
    ensures
        r.deep_view() == seq!["-n"@, spec_u64_digits(lines as int), log_path@],
{
    let mut args: Vec<String> = Vec::new();
    args.push(String::from_str("-n"));
    args.push(u64_to_string(lines));
    args.push(String::from_str(log_path));
    proof {
        assert(args.deep_view() =~= seq!["-n"@, spec_u64_digits(lines as int), log_path@]);
    }
    args
}

/// The friendly answer when the chosen log file is not on disk; the
/// query still succeeds.
pub fn log_missing_message(log_path: &str) -> (r: String)
    ensures
        r@ == "Log file "@ + log_path@ + " not found"@,
{
    s3("Log file ", log_path, " not found")
}

/// The answer for `get_logs` once the read has run: empty output is a
/// valid result, named as such, not an error.
pub fn get_logs_report(command_ok: bool, stdout: &str, stderr: &str) -> (r: Result<String, String>)
    ensures
        command_ok && stdout@.len() == 0 ==> (r matches Ok(m) && m@ == "Log is empty"@),
        command_ok && stdout@.len() > 0 ==> (r matches Ok(m) && m@ == stdout@),
        !command_ok ==> (r matches Err(m) && m@ == "Failed to read logs: "@ + stderr@),
{
    if command_ok {
        if stdout.is_empty() {
            Ok(String::from_str("Log is empty"))
        } else {
            Ok(String::from_str(stdout))
        }
    } else {
        Err(s2("Failed to read logs: ", stderr))
    }
}

/// The answer for `get_service_logs` once the read has run.
pub fn get_service_logs_report(command_ok: bool, stdout: &str, stderr: &str) -> (r: Result<
    String,
    String,
>)
    ensures
        command_ok && stdout@.len() == 0 ==> (r matches Ok(m) && m@ == "Log is empty"@),
        command_ok && stdout@.len() > 0 ==> (r matches Ok(m) && m@ == stdout@),
        !command_ok ==> (r matches Err(m) && m@ == "Failed to read service logs: "@ + stderr@),
{
    if command_ok {
        if stdout.is_empty() {
            Ok(String::from_str("Log is empty"))
        } else {
            Ok(String::from_str(stdout))
        }
    } else {
        Err(s2("Failed to read service logs: ", stderr))
    }
}

} // verus!
