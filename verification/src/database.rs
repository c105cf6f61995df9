use vstd::prelude::*;
use vstd::string::StringExecFns;
use crate::json::{get_str, spec_get_str, spec_str_or, str_or, JsonValue};
use crate::text::{
    s2, s3, s5, spec_parse_u64_or_zero, spec_trim, spec_u64_digits, str_eq, trim,
    parse_u64_or_zero, u64_to_string,
};

verus! {

/// Everything `create_database` computes before running the database
/// tool: the two statement strings handed to it, the metadata record, and
/// where that record is kept.
#[derive(Debug)]
pub struct DbCreatePlan {
    pub name: String,
    pub user: String,
    pub sql_create: String,
    pub sql_grant: String,
    pub meta_path: String,
    pub meta: JsonValue,
}

/// Validate the parameters of `create_database` and build its plan. The
/// caller-supplied identifiers are interpolated into the statement texts
/// exactly as given; restricting them to a safe character set is assumed
/// to happen upstream.
pub fn create_database_plan(params: &JsonValue) -> (r: Result<DbCreatePlan, String>)
    ensures
        match spec_get_str(*params, "name"@) {
            None => (r matches Err(m) && m@ == "Missing name"@),
            Some(name) => match spec_get_str(*params, "user"@) {
                None => (r matches Err(m) && m@ == "Missing user"@),
                Some(user) => match spec_get_str(*params, "password"@) {
                    None => (r matches Err(m) && m@ == "Missing password"@),
                    Some(password) => if spec_str_or(*params, "type"@, "mysql"@) != "mysql"@ {
                        r matches Err(m) && m@ == "Only MySQL is supported for now"@
                    } else {
                        r matches Ok(p) && {
                            &&& p.name@ == name
                            &&& p.user@ == user
                            &&& p.sql_create@ == "CREATE DATABASE IF NOT EXISTS `"@ + name
                                + "`"@
                            &&& p.sql_grant@ == "CREATE USER IF NOT EXISTS '"@ + user
                                + "'@'localhost' IDENTIFIED BY '"@ + password
                                + "'; GRANT ALL PRIVILEGES ON `"@ + name + "`.* TO '"@ + user
                                + "'@'localhost'; FLUSH PRIVILEGES;"@
                            &&& p.meta_path@ == "/var/lib/supercp/databases/"@ + name
                                + ".json"@
                            &&& (p.meta matches JsonValue::Obj(fs) && fs@.len() == 3
                                && fs@[0].0@ == "name"@ && (fs@[0].1 matches JsonValue::Str(v)
                                && v@ == name) && fs@[1].0@ == "user"@ && (fs@[1].1
                                matches JsonValue::Str(v) && v@ == user) && fs@[2].0@
                                == "type"@ && (fs@[2].1 matches JsonValue::Str(v) && v@
                                == "mysql"@))
                        }
                    },
                },
            },
        },
{
    let name = match get_str(params, "name") {
        Some(s) => s.clone(),
        None => {
            return Err(String::from_str("Missing name"));
        },
    };
    let user = match get_str(params, "user") {
        Some(s) => s.clone(),
        None => {
            return Err(String::from_str("Missing user"));
        },
    };
    let password = match get_str(params, "password") {
        Some(s) => s.clone(),
        None => {
            return Err(String::from_str("Missing password"));
        },
    };
    let db_type = str_or(params, "type", "mysql");
    if !str_eq(db_type.as_str(), "mysql") {
        return Err(String::from_str("Only MySQL is supported for now"));
    }

    let sql_create = s3("CREATE DATABASE IF NOT EXISTS `", name.as_str(), "`");
    let sql_grant = s2("CREATE USER IF NOT EXISTS '", user.as_str()).concat(
        "'@'localhost' IDENTIFIED BY '",
    ).concat(password.as_str()).concat("'; GRANT ALL PRIVILEGES ON `").concat(name.as_str())
        .concat("`.* TO '").concat(user.as_str()).concat("'@'localhost'; FLUSH PRIVILEGES;");
    let meta_path = s3("/var/lib/supercp/databases/", name.as_str(), ".json");

    let mut fs: Vec<(String, JsonValue)> = Vec::new();
    fs.push((String::from_str("name"), JsonValue::Str(name.clone())));
    fs.push((String::from_str("user"), JsonValue::Str(user.clone())));
    fs.push((String::from_str("type"), JsonValue::Str(db_type)));
    let meta = JsonValue::Obj(fs);

    Ok(DbCreatePlan { name, user, sql_create, sql_grant, meta_path, meta })
}

/// The check after the database-creation statement has run.
pub fn create_database_step_report(name: &str, command_ok: bool) -> (r: Result<(), String>)
    ensures
        command_ok ==> r is Ok,
        !command_ok ==> (r matches Err(m) && m@ == "Failed to create database "@ + name@),
{
    if command_ok {
        Ok(())
    } else {
        Err(s2("Failed to create database ", name))
    }
}

/// The check after the account-and-grant statement has run.
pub fn grant_step_report(user: &str, command_ok: bool) -> (r: Result<(), String>)
    ensures
        command_ok ==> r is Ok,
        !command_ok ==> (r matches Err(m) && m@
            == "Failed to create user or grant privileges for "@ + user@),
{
    if command_ok {
        Ok(())
    } else {
        Err(s2("Failed to create user or grant privileges for ", user))
    }
}

/// The success answer once database, account and metadata all exist.
pub fn create_database_success(name: &str, user: &str) -> (r: String)
    ensures
        r@ == "Database "@ + name@ + " created and user "@ + user@ + " granted access"@,
{
    s5("Database ", name, " created and user ", user, " granted access")
}

/// The plan for `delete_database`: the drop statement (tolerant of an
/// absent database) and the metadata record to remove.
#[derive(Debug)]
pub struct DbDeletePlan {
    pub name: String,
    pub sql_drop: String,
    pub meta_path: String,
}

/// Validate the parameters of `delete_database` and build its plan.
pub fn delete_database_plan(params: &JsonValue) -> (r: Result<DbDeletePlan, String>)
    ensures
        match spec_get_str(*params, "name"@) {
            None => (r matches Err(m) && m@ == "Missing name"@),
            Some(name) => (r matches Ok(p) && {
                &&& p.name@ == name
                &&& p.sql_drop@ == "DROP DATABASE IF EXISTS `"@ + name + "`"@
                &&& p.meta_path@ == "/var/lib/supercp/databases/"@ + name + ".json"@
            }),
        },
{
    let name = match get_str(params, "name") {
        Some(s) => s.clone(),
        None => {
            return Err(String::from_str("Missing name"));
        },
    };
    let sql_drop = s3("DROP DATABASE IF EXISTS `", name.as_str(), "`");
    let meta_path = s3("/var/lib/supercp/databases/", name.as_str(), ".json");
    Ok(DbDeletePlan { name, sql_drop, meta_path })
}

/// The answer for `delete_database` once the drop statement has run.
pub fn delete_database_report(name: &str, command_ok: bool) -> (r: Result<String, String>)
    ensures
        command_ok ==> (r matches Ok(m) && m@ == "Database "@ + name@ + " deleted"@),
        !command_ok ==> (r matches Err(m) && m@ == "Failed to drop database "@ + name@),
{
    if command_ok {
        Ok(s3("Database ", name, " deleted"))
    } else {
        Err(s2("Failed to drop database ", name))
    }
}

/// The statement `get_database_size` hands the database tool.
pub fn database_size_sql(name: &str) -> (r: String)
    ensures
        r@ == "SELECT SUM(data_length + index_length) FROM information_schema.TABLES WHERE table_schema = '"@
            + name@ + "'"@,
{
    s3(
        "SELECT SUM(data_length + index_length) FROM information_schema.TABLES WHERE table_schema = '",
        name,
        "'",
    )
}

/// The name a size query must carry.
pub fn database_size_plan(params: &JsonValue) -> (r: Result<String, String>)
    ensures
        match spec_get_str(*params, "name"@) {
            None => (r matches Err(m) && m@ == "Missing name"@),
            Some(name) => (r matches Ok(n) && n@ == name),
        },
{
    match get_str(params, "name") {
        Some(s) => Ok(s.clone()),
        None => Err(String::from_str("Missing name")),
    }
}

/// The size a successful query's output denotes: an empty or NULL sum is
/// zero, anything else is read as a number, zero when unreadable.
pub open spec fn spec_db_size(stdout: Seq<char>) -> int {
    let t = spec_trim(stdout);
    if t == "NULL"@ || t.len() == 0 {
        0
    } else {
        spec_parse_u64_or_zero(t)
    }
}

/// The answer for `get_database_size` once the query has run.
pub fn database_size_report(command_ok: bool, stdout: &str, stderr: &str) -> (r: Result<
    u64,
    String,
>)
    ensures
        command_ok ==> (r matches Ok(n) && n as int == spec_db_size(stdout@)),
        !command_ok ==> (r matches Err(m) && m@ == "Failed to get database size: "@ + stderr@),
{
    if command_ok {
        let t = trim(stdout);
        if str_eq(t, "NULL") || t.is_empty() {
            Ok(0)
        } else {
            Ok(parse_u64_or_zero(t))
        }
    } else {
        Err(s2("Failed to get database size: ", stderr))
    }
}

/// The plan for `create_db_backup`: where the dump of the named database
/// lands, stamped with the moment the caller supplies.
#[derive(Debug)]
pub struct DbBackupPlan {
    pub db_name: String,
    pub target_path: String,
}

/// Validate the parameters of `create_db_backup` and name its target
/// file. The timestamp is handed in by the caller: the daemon stamps the
/// file with the current time, which is no function of the request.
pub fn create_db_backup_plan(params: &JsonValue, timestamp: u64) -> (r: Result<
    DbBackupPlan,
    String,
>)
    ensures
        match spec_get_str(*params, "db_name"@) {
            None => (r matches Err(m) && m@ == "Missing db_name"@),
            Some(db) => (r matches Ok(p) && p.db_name@ == db && p.target_path@
                == "/var/lib/supercp/backups/"@ + db + "_"@ + spec_u64_digits(timestamp as int)
                + ".sql"@),
        },
{
    let db_name = match get_str(params, "db_name") {
        Some(s) => s.clone(),
        None => {
            return Err(String::from_str("Missing db_name"));
        },
    };
    let stamp = u64_to_string(timestamp);
    let target_path = s2("/var/lib/supercp/backups/", db_name.as_str()).concat("_").concat(
        stamp.as_str(),
    ).concat(".sql");
    Ok(DbBackupPlan { db_name, target_path })
}

/// The answer for `create_db_backup` once the dump has run: success
/// names the file written, failure carries the tool's diagnostic text.
pub fn create_db_backup_report(plan: &DbBackupPlan, command_ok: bool, stderr: &str) -> (r: Result<
    String,
    String,
>)
    ensures
        command_ok ==> (r matches Ok(m) && m@ == plan.target_path@),
        !command_ok ==> (r matches Err(m) && m@ == "Failed to create database backup: "@
            + stderr@),
{
    if command_ok {
        Ok(plan.target_path.clone())
    } else {
        Err(s2("Failed to create database backup: ", stderr))
    }
}

/// The plan for `restore_db_backup`: which dump feeds which database.
#[derive(Debug)]
pub struct DbRestorePlan {
    pub path: String,
    pub db_name: String,
}

/// Validate the parameters of `restore_db_backup`.
pub fn restore_db_backup_plan(params: &JsonValue) -> (r: Result<DbRestorePlan, String>)
    ensures
        match spec_get_str(*params, "path"@) {
            None => (r matches Err(m) && m@ == "Missing path"@),
            Some(path) => match spec_get_str(*params, "db_name"@) {
                None => (r matches Err(m) && m@ == "Missing db_name"@),
                Some(db) => (r matches Ok(p) && p.path@ == path && p.db_name@ == db),
            },
        },
{
    let path = match get_str(params, "path") {
        Some(s) => s.clone(),
        None => {
            return Err(String::from_str("Missing path"));
        },
    };
    let db_name = match get_str(params, "db_name") {
        Some(s) => s.clone(),
        None => {
            return Err(String::from_str("Missing db_name"));
        },
    };
    Ok(DbRestorePlan { path, db_name })
}

/// The answer for `restore_db_backup` once the feed has run.
pub fn restore_db_backup_report(plan: &DbRestorePlan, command_ok: bool) -> (r: Result<
    String,
    String,
>)
    ensures
        command_ok ==> (r matches Ok(m) && m@ == "Database "@ + plan.db_name@
            + " restored from "@ + plan.path@),
        !command_ok ==> (r matches Err(m) && m@ == "Failed to restore database "@
            + plan.db_name@),
{
    if command_ok {
        Ok(
            s2("Database ", plan.db_name.as_str()).concat(" restored from ").concat(
                plan.path.as_str(),
            ),
        )
    } else {
        Err(s2("Failed to restore database ", plan.db_name.as_str()))
    }
}

} // verus!
