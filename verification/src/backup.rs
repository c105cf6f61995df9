use vstd::prelude::*;
use vstd::string::StringExecFns;
use crate::files::{path_file_name_arg, path_parent_arg, spec_file_name_arg, spec_parent_arg};
use crate::json::{get_str, spec_get_str, JsonValue};
use crate::text::s2;

verus! {

/// The plan for `create_backup`: the archive's target path and the
/// argument vector for the archiver, source split into its directory and
/// final component so the archive holds relative names.
#[derive(Debug)]
pub struct BackupPlan {
    pub name: String,
    pub target_path: String,
    pub args: Vec<String>,
}

/// Validate the parameters of `create_backup` and lay out the archive
/// call.
pub fn create_backup_plan(params: &JsonValue) -> (r: Result<BackupPlan, String>)
    ensures
        spec_get_str(*params, "name"@).is_none() ==> (r matches Err(m) && m@
            == "Missing name"@),
        spec_get_str(*params, "name"@).is_some() && spec_get_str(
            *params,
            "source_path"@,
        ).is_none() ==> (r matches Err(m) && m@ == "Missing source_path"@),
        spec_get_str(*params, "name"@).is_some() && spec_get_str(
            *params,
            "source_path"@,
        ).is_some() ==> (r matches Ok(p) && {
            let name = spec_get_str(*params, "name"@).unwrap();
            let src = spec_get_str(*params, "source_path"@).unwrap();
            &&& p.name@ == name
            &&& p.target_path@ == "/var/lib/supercp/backups/"@ + name + ".tar.gz"@
            &&& p.args.deep_view() == seq!["-czf"@, "/var/lib/supercp/backups/"@ + name
                + ".tar.gz"@, "-C"@, spec_parent_arg(src), spec_file_name_arg(src)]
        }),
{
    let name = match get_str(params, "name") {
        Some(s) => s.clone(),
        None => {
            return Err(String::from_str("Missing name"));
        },
    };
    let source_path = match get_str(params, "source_path") {
        Some(s) => s.clone(),
        None => {
            return Err(String::from_str("Missing source_path"));
        },
    };
    let target_path = s2("/var/lib/supercp/backups/", name.as_str()).concat(".tar.gz");
    let mut args: Vec<String> = Vec::new();
    args.push(String::from_str("-czf"));
    args.push(target_path.clone());
    args.push(String::from_str("-C"));
    args.push(path_parent_arg(source_path.as_str()));
    args.push(path_file_name_arg(source_path.as_str()));
    proof {
        assert(args.deep_view() =~= seq!["-czf"@, target_path@, "-C"@, spec_parent_arg(
            source_path@,
        ), spec_file_name_arg(source_path@)]);
    }
    Ok(BackupPlan { name, target_path, args })
}

/// The answer for `create_backup` once the archiver has run: success
/// names the archive written.
pub fn create_backup_report(plan: &BackupPlan, command_ok: bool) -> (r: Result<String, String>)
    ensures
        command_ok ==> (r matches Ok(m) && m@ == plan.target_path@),
        !command_ok ==> (r matches Err(m) && m@ == "Failed to create backup archive"@),
{
    if command_ok {
        Ok(plan.target_path.clone())
    } else {
        Err(String::from_str("Failed to create backup archive"))
    }
}

/// A restore starts only when the named backup file is on disk.
pub fn backup_exists_check(exists: bool) -> (r: Result<(), String>)
    ensures
        exists ==> r is Ok,
        !exists ==> (r matches Err(m) && m@ == "Backup file not found"@),
{
    if exists {
        Ok(())
    } else {
        Err(String::from_str("Backup file not found"))
    }
}

/// The plan for `restore_backup`: which archive unpacks where.
#[derive(Debug)]
pub struct RestorePlan {
    pub path: String,
    pub target_path: String,
    pub args: Vec<String>,
}

/// Validate the parameters of `restore_backup` and lay out the unpack
/// call.
pub fn restore_backup_plan(params: &JsonValue) -> (r: Result<RestorePlan, String>)
    ensures
        spec_get_str(*params, "path"@).is_none() ==> (r matches Err(m) && m@
            == "Missing path"@),
        spec_get_str(*params, "path"@).is_some() && spec_get_str(
            *params,
            "target_path"@,
        ).is_none() ==> (r matches Err(m) && m@ == "Missing target_path"@),
        spec_get_str(*params, "path"@).is_some() && spec_get_str(
            *params,
            "target_path"@,
        ).is_some() ==> (r matches Ok(p) && {
            let path = spec_get_str(*params, "path"@).unwrap();
            let target = spec_get_str(*params, "target_path"@).unwrap();
            &&& p.path@ == path
            &&& p.target_path@ == target
            &&& p.args.deep_view() == seq!["-xzf"@, path, "-C"@, target]
        }),
{
    let path = match get_str(params, "path") {
        Some(s) => s.clone(),
        None => {
            return Err(String::from_str("Missing path"));
        },
    };
    let target_path = match get_str(params, "target_path") {
        Some(s) => s.clone(),
        None => {
            return Err(String::from_str("Missing target_path"));
        },
    };
    let mut args: Vec<String> = Vec::new();
    args.push(String::from_str("-xzf"));
    args.push(path.clone());
    args.push(String::from_str("-C"));
    args.push(target_path.clone());
    proof {
        assert(args.deep_view() =~= seq!["-xzf"@, path@, "-C"@, target_path@]);
    }
    Ok(RestorePlan { path, target_path, args })
}

/// The answer for `restore_backup` once the unpack has run.
pub fn restore_backup_report(plan: &RestorePlan, command_ok: bool) -> (r: Result<String, String>)
    ensures
        command_ok ==> (r matches Ok(m) && m@ == "Backup restored to "@ + plan.target_path@),
        !command_ok ==> (r matches Err(m) && m@ == "Failed to restore backup archive"@),
{
    if command_ok {
        Ok(s2("Backup restored to ", plan.target_path.as_str()))
    } else {
        Err(String::from_str("Failed to restore backup archive"))
    }
}

} // verus!
