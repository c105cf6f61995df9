use vstd::prelude::*;
use crate::json::JsonValue;
use crate::text::str_eq;

verus! {

/// Wire code for an unknown method name.
pub const METHOD_NOT_FOUND_CODE: i64 = -32601;

/// Wire code shared by every handler-level failure.
pub const APP_ERROR_CODE: i64 = -32000;

/// One parsed request envelope.
pub struct Request {
    pub method: String,
    pub params: JsonValue,
    pub id: JsonValue,
}

/// One response envelope: exactly a success or a failure, never both.
pub enum Response {
    Success { result: JsonValue, id: JsonValue },
    Failure { code: i64, message: String, id: JsonValue },
}

impl Response {
    /// The echoed caller token of this response.
    pub open spec fn spec_id(self) -> JsonValue {
        match self {
            Response::Success { id, .. } => id,
            Response::Failure { id, .. } => id,
        }
    }
}

/// Every method the daemon serves, one name each.
#[derive(PartialEq, Eq, Structural, Debug, Clone, Copy)]
pub enum Method {
    Ping,
    CreateVhost,
    DeleteVhost,
    ListVhosts,
    GetStatus,
    RestartService,
    CreateBackup,
    CreateDbBackup,
    RestoreBackup,
    RestoreDbBackup,
    ReloadServices,
    CreateDatabase,
    DeleteDatabase,
    ListDatabases,
    CreateFtpUser,
    DeleteFtpUser,
    ListFtpUsers,
    GetDatabaseSize,
    GetDirectorySize,
    UpdateCronJobs,
    ListCronJobs,
    UpdateDnsZone,
    DeleteDnsZone,
    RequestSslCert,
    UpdateEmailAccount,
    DeleteEmailAccount,
    GetSystemStats,
    ListFiles,
    ReadFile,
    WriteFile,
    DeleteFile,
    CreateDirectory,
    RenameFile,
    GetLogs,
    GetServiceLogs,
    ApplyFirewallRule,
    DeleteFirewallRule,
    ToggleFirewall,
    GetFirewallStatus,
}

/// The handler selected by a method name: exact-match lookup over the
/// fixed set of names, `None` for everything else.
pub open spec fn spec_route(m: Seq<char>) -> Option<Method> {
    if m == "ping"@ {
        Some(Method::Ping)
    } else if m == "create_vhost"@ {
        Some(Method::CreateVhost)
    } else if m == "delete_vhost"@ {
        Some(Method::DeleteVhost)
    } else if m == "list_vhosts"@ {
        Some(Method::ListVhosts)
    } else if m == "get_status"@ {
        Some(Method::GetStatus)
    } else if m == "restart_service"@ {
        Some(Method::RestartService)
    } else if m == "create_backup"@ {
        Some(Method::CreateBackup)
    } else if m == "create_db_backup"@ {
        Some(Method::CreateDbBackup)
    } else if m == "restore_backup"@ {
        Some(Method::RestoreBackup)
    } else if m == "restore_db_backup"@ {
        Some(Method::RestoreDbBackup)
    } else if m == "reload_services"@ {
        Some(Method::ReloadServices)
    } else if m == "create_database"@ {
        Some(Method::CreateDatabase)
    } else if m == "delete_database"@ {
        Some(Method::DeleteDatabase)
    } else if m == "list_databases"@ {
        Some(Method::ListDatabases)
    } else if m == "create_ftp_user"@ {
        Some(Method::CreateFtpUser)
    } else if m == "delete_ftp_user"@ {
        Some(Method::DeleteFtpUser)
    } else if m == "list_ftp_users"@ {
        Some(Method::ListFtpUsers)
    } else if m == "get_database_size"@ {
        Some(Method::GetDatabaseSize)
    } else if m == "get_directory_size"@ {
        Some(Method::GetDirectorySize)
    } else if m == "update_cron_jobs"@ {
        Some(Method::UpdateCronJobs)
    } else if m == "list_cron_jobs"@ {
        Some(Method::ListCronJobs)
    } else if m == "update_dns_zone"@ {
        Some(Method::UpdateDnsZone)
    } else if m == "delete_dns_zone"@ {
        Some(Method::DeleteDnsZone)
    } else if m == "request_ssl_cert"@ {
        Some(Method::RequestSslCert)
    } else if m == "update_email_account"@ {
        Some(Method::UpdateEmailAccount)
    } else if m == "delete_email_account"@ {
        Some(Method::DeleteEmailAccount)
    } else if m == "get_system_stats"@ {
        Some(Method::GetSystemStats)
    } else if m == "list_files"@ {
        Some(Method::ListFiles)
    } else if m == "read_file"@ {
        Some(Method::ReadFile)
    } else if m == "write_file"@ {
        Some(Method::WriteFile)
    } else if m == "delete_file"@ {
        Some(Method::DeleteFile)
    } else if m == "create_directory"@ {
        Some(Method::CreateDirectory)
    } else if m == "rename_file"@ {
        Some(Method::RenameFile)
    } else if m == "get_logs"@ {
        Some(Method::GetLogs)
    } else if m == "get_service_logs"@ {
        Some(Method::GetServiceLogs)
    } else if m == "apply_firewall_rule"@ {
        Some(Method::ApplyFirewallRule)
    } else if m == "delete_firewall_rule"@ {
        Some(Method::DeleteFirewallRule)
    } else if m == "toggle_firewall"@ {
        Some(Method::ToggleFirewall)
    } else if m == "get_firewall_status"@ {
        Some(Method::GetFirewallStatus)
    } else {
        None
    }
}

/// Exact-match lookup of a method name.
pub fn route(m: &str) -> (r: Option<Method>)
    ensures
        r == spec_route(m@),
{
    if str_eq(m, "ping") {
        Some(Method::Ping)
    } else if str_eq(m, "create_vhost") {
        Some(Method::CreateVhost)
    } else if str_eq(m, "delete_vhost") {
        Some(Method::DeleteVhost)
    } else if str_eq(m, "list_vhosts") {
        Some(Method::ListVhosts)
    } else if str_eq(m, "get_status") {
        Some(Method::GetStatus)
    } else if str_eq(m, "restart_service") {
        Some(Method::RestartService)
    } else if str_eq(m, "create_backup") {
        Some(Method::CreateBackup)
    } else if str_eq(m, "create_db_backup") {
        Some(Method::CreateDbBackup)
    } else if str_eq(m, "restore_backup") {
        Some(Method::RestoreBackup)
    } else if str_eq(m, "restore_db_backup") {
        Some(Method::RestoreDbBackup)
    } else if str_eq(m, "reload_services") {
        Some(Method::ReloadServices)
    } else if str_eq(m, "create_database") {
        Some(Method::CreateDatabase)
    } else if str_eq(m, "delete_database") {
        Some(Method::DeleteDatabase)
    } else if str_eq(m, "list_databases") {
        Some(Method::ListDatabases)
    } else if str_eq(m, "create_ftp_user") {
        Some(Method::CreateFtpUser)
    } else if str_eq(m, "delete_ftp_user") {
        Some(Method::DeleteFtpUser)
    } else if str_eq(m, "list_ftp_users") {
        Some(Method::ListFtpUsers)
    } else if str_eq(m, "get_database_size") {
        Some(Method::GetDatabaseSize)
    } else if str_eq(m, "get_directory_size") {
        Some(Method::GetDirectorySize)
    } else if str_eq(m, "update_cron_jobs") {
        Some(Method::UpdateCronJobs)
    } else if str_eq(m, "list_cron_jobs") {
        Some(Method::ListCronJobs)
    } else if str_eq(m, "update_dns_zone") {
        Some(Method::UpdateDnsZone)
    } else if str_eq(m, "delete_dns_zone") {
        Some(Method::DeleteDnsZone)
    } else if str_eq(m, "request_ssl_cert") {
        Some(Method::RequestSslCert)
    } else if str_eq(m, "update_email_account") {
        Some(Method::UpdateEmailAccount)
    } else if str_eq(m, "delete_email_account") {
        Some(Method::DeleteEmailAccount)
    } else if str_eq(m, "get_system_stats") {
        Some(Method::GetSystemStats)
    } else if str_eq(m, "list_files") {
        Some(Method::ListFiles)
    } else if str_eq(m, "read_file") {
        Some(Method::ReadFile)
    } else if str_eq(m, "write_file") {
        Some(Method::WriteFile)
    } else if str_eq(m, "delete_file") {
        Some(Method::DeleteFile)
    } else if str_eq(m, "create_directory") {
        Some(Method::CreateDirectory)
    } else if str_eq(m, "rename_file") {
        Some(Method::RenameFile)
    } else if str_eq(m, "get_logs") {
        Some(Method::GetLogs)
    } else if str_eq(m, "get_service_logs") {
        Some(Method::GetServiceLogs)
    } else if str_eq(m, "apply_firewall_rule") {
        Some(Method::ApplyFirewallRule)
    } else if str_eq(m, "delete_firewall_rule") {
        Some(Method::DeleteFirewallRule)
    } else if str_eq(m, "toggle_firewall") {
        Some(Method::ToggleFirewall)
    } else if str_eq(m, "get_firewall_status") {
        Some(Method::GetFirewallStatus)
    } else {
        None
    }
}

/// What the dispatcher decides for one request: answer at once, or run
/// the selected handler.
pub enum DispatchStep {
    Reply(Response),
    Run(Method, Request),
}

/// The dispatch decision for one request. The response's `id` always
/// equals the request's `id`: an unknown method is answered with the
/// reserved code, and `ping` with the bare success `"pong"`.
pub fn dispatch(req: Request) -> (step: DispatchStep)
    ensures
        match spec_route(req.method@) {
            None => step matches DispatchStep::Reply(r) && r matches Response::Failure {
                code,
                message,
                id,
            } && code == METHOD_NOT_FOUND_CODE && message@ == "Method not found"@ && id == req.id,
            Some(Method::Ping) => step matches DispatchStep::Reply(r) && r
                matches Response::Success { result, id } && result matches JsonValue::Str(s)
                && s@ == "pong"@ && id == req.id,
            Some(m) => step == DispatchStep::Run(m, req),
        },
{
    match route(req.method.as_str()) {
        None => DispatchStep::Reply(
            Response::Failure {
                code: METHOD_NOT_FOUND_CODE,
                message: String::from_str("Method not found"),
                id: req.id,
            },
        ),
        Some(Method::Ping) => DispatchStep::Reply(
            Response::Success { result: JsonValue::Str(String::from_str("pong")), id: req.id },
        ),
        Some(m) => DispatchStep::Run(m, req),
    }
}

/// Wrap a handler's outcome in the response envelope for the request it
/// answers. A success carries the handler's value; a failure carries the
/// shared application-error code and the handler's message. Either way
/// the response echoes the request's caller token unchanged.
pub fn respond(req: Request, outcome: Result<JsonValue, String>) -> (r: Response)
    ensures
        r.spec_id() == req.id,
        match outcome {
            Ok(v) => r matches Response::Success { result, id } && result == v && id == req.id,
            Err(m) => r matches Response::Failure { code, message, id } && code == APP_ERROR_CODE
                && message == m && id == req.id,
        },
{
    match outcome {
        Ok(v) => Response::Success { result: v, id: req.id },
        Err(m) => Response::Failure { code: APP_ERROR_CODE, message: m, id: req.id },
    }
}

/// The request envelope a client sends: protocol tag, method, parameters
/// and its chosen caller token, in wire order.
pub fn make_request(method: &str, params: JsonValue, id: &str) -> (r: JsonValue)
    ensures
        r matches JsonValue::Obj(fs) && {
            &&& fs@.len() == 4
            &&& fs@[0].0@ == "jsonrpc"@
            &&& (fs@[0].1 matches JsonValue::Str(s) && s@ == "2.0"@)
            &&& fs@[1].0@ == "method"@
            &&& (fs@[1].1 matches JsonValue::Str(s) && s@ == method@)
            &&& fs@[2].0@ == "params"@
            &&& fs@[2].1 == params
            &&& fs@[3].0@ == "id"@
            &&& (fs@[3].1 matches JsonValue::Str(s) && s@ == id@)
        },
{
    let mut fs: Vec<(String, JsonValue)> = Vec::new();
    fs.push((String::from_str("jsonrpc"), JsonValue::Str(String::from_str("2.0"))));
    fs.push((String::from_str("method"), JsonValue::Str(String::from_str(method))));
    fs.push((String::from_str("params"), params));
    fs.push((String::from_str("id"), JsonValue::Str(String::from_str(id))));
    JsonValue::Obj(fs)
}

} // verus!
