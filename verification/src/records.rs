use vstd::prelude::*;
use vstd::string::StringExecFns;
use crate::json::{
    get_arr, get_str, spec_get_arr, spec_get_str, spec_get_u64, spec_str_or, spec_u64_or,
    str_or, u64_or, JsonValue,
};
use crate::seqtools::{lemma_concat_map_push, spec_concat_map};
use crate::text::{s2, s3, spec_u64_digits, u64_to_string};

verus! {

/// The plan for `create_ftp_user`: the metadata record and where it is
/// kept; the home directory is created alongside when absent.
#[derive(Debug)]
pub struct FtpUserPlan {
    pub username: String,
    pub homedir: String,
    pub meta_path: String,
    pub meta: JsonValue,
}

/// Validate the parameters of `create_ftp_user` and build its plan.
pub fn create_ftp_user_plan(params: &JsonValue) -> (r: Result<FtpUserPlan, String>)
    ensures
        spec_get_str(*params, "username"@).is_none() ==> (r matches Err(m) && m@
            == "Missing username"@),
        spec_get_str(*params, "username"@).is_some() && spec_get_str(
            *params,
            "password"@,
        ).is_none() ==> (r matches Err(m) && m@ == "Missing password"@),
        spec_get_str(*params, "username"@).is_some() && spec_get_str(*params, "password"@).is_some()
            && spec_get_str(*params, "homedir"@).is_none() ==> (r matches Err(m) && m@
            == "Missing homedir"@),
        spec_get_str(*params, "username"@).is_some() && spec_get_str(
            *params,
            "password"@,
        ).is_some() && spec_get_str(*params, "homedir"@).is_some() ==> (r matches Ok(p)
            && {
            let u = spec_get_str(*params, "username"@).unwrap();
            let h = spec_get_str(*params, "homedir"@).unwrap();
            &&& p.username@ == u
            &&& p.homedir@ == h
            &&& p.meta_path@ == "/etc/supercp/ftp_users/"@ + u + ".json"@
            &&& (p.meta matches JsonValue::Obj(fs) && fs@.len() == 2 && fs@[0].0@
                == "username"@ && (fs@[0].1 matches JsonValue::Str(v) && v@ == u) && fs@[1].0@
                == "homedir"@ && (fs@[1].1 matches JsonValue::Str(v) && v@ == h))
        }),
{
    let username = match get_str(params, "username") {
        Some(s) => s.clone(),
        None => {
            return Err(String::from_str("Missing username"));
        },
    };
    match get_str(params, "password") {
        Some(_) => (),
        None => {
            return Err(String::from_str("Missing password"));
        },
    };
    let homedir = match get_str(params, "homedir") {
        Some(s) => s.clone(),
        None => {
            return Err(String::from_str("Missing homedir"));
        },
    };
    let meta_path = s3("/etc/supercp/ftp_users/", username.as_str(), ".json");
    let mut fs: Vec<(String, JsonValue)> = Vec::new();
    fs.push((String::from_str("username"), JsonValue::Str(username.clone())));
    fs.push((String::from_str("homedir"), JsonValue::Str(homedir.clone())));
    let meta = JsonValue::Obj(fs);
    Ok(FtpUserPlan { username, homedir, meta_path, meta })
}

/// The success answer once the FTP metadata is written.
pub fn create_ftp_user_success(plan: &FtpUserPlan) -> (r: String)
    ensures
        r@ == "FTP user "@ + plan.username@ + " created with homedir "@ + plan.homedir@,
{
    s2("FTP user ", plan.username.as_str()).concat(" created with homedir ").concat(
        plan.homedir.as_str(),
    )
}

/// The plan for `delete_ftp_user`: which record to remove, tolerant of
/// one already absent.
pub fn delete_ftp_user_plan(params: &JsonValue) -> (r: Result<(String, String), String>)
    ensures
        match spec_get_str(*params, "username"@) {
            None => (r matches Err(m) && m@ == "Missing username"@),
            Some(u) => (r matches Ok(p) && p.0@ == "/etc/supercp/ftp_users/"@ + u + ".json"@
                && p.1@ == "FTP user "@ + u + " deleted"@),
        },
{
    let username = match get_str(params, "username") {
        Some(s) => s.clone(),
        None => {
            return Err(String::from_str("Missing username"));
        },
    };
    let meta_path = s3("/etc/supercp/ftp_users/", username.as_str(), ".json");
    let message = s3("FTP user ", username.as_str(), " deleted");
    Ok((meta_path, message))
}

/// The plan for `update_email_account`: the metadata record, where it is
/// kept, and the success answer naming the quota.
#[derive(Debug)]
pub struct EmailPlan {
    pub email: String,
    pub quota_mb: u64,
    pub account_path: String,
    pub meta: JsonValue,
    pub message: String,
}

/// Validate the parameters of `update_email_account` and build its plan.
pub fn update_email_account_plan(params: &JsonValue) -> (r: Result<EmailPlan, String>)
    ensures
        spec_get_str(*params, "email"@).is_none() ==> (r matches Err(m) && m@
            == "Missing email"@),
        spec_get_str(*params, "email"@).is_some() && spec_get_str(*params, "password"@).is_none()
            ==> (r matches Err(m) && m@ == "Missing password"@),
        spec_get_str(*params, "email"@).is_some() && spec_get_str(
            *params,
            "password"@,
        ).is_some() ==> (r matches Ok(p) && {
            let e = spec_get_str(*params, "email"@).unwrap();
            let q = spec_u64_or(*params, "quota_mb"@, 0);
            &&& p.email@ == e
            &&& p.quota_mb == q
            &&& p.account_path@ == "/var/mail/supercp/"@ + e + ".json"@
            &&& (p.meta matches JsonValue::Obj(fs) && fs@.len() == 2 && fs@[0].0@ == "email"@
                && (fs@[0].1 matches JsonValue::Str(v) && v@ == e) && fs@[1].0@ == "quota_mb"@
                && fs@[1].1 == JsonValue::UInt(q))
            &&& p.message@ == "Email account "@ + e + " updated (quota: "@ + spec_u64_digits(
                q as int,
            ) + "MB)"@
        }),
{
    let email = match get_str(params, "email") {
        Some(s) => s.clone(),
        None => {
            return Err(String::from_str("Missing email"));
        },
    };
    match get_str(params, "password") {
        Some(_) => (),
        None => {
            return Err(String::from_str("Missing password"));
        },
    };
    let quota_mb = u64_or(params, "quota_mb", 0);
    let account_path = s3("/var/mail/supercp/", email.as_str(), ".json");
    let mut fs: Vec<(String, JsonValue)> = Vec::new();
    fs.push((String::from_str("email"), JsonValue::Str(email.clone())));
    fs.push((String::from_str("quota_mb"), JsonValue::UInt(quota_mb)));
    let meta = JsonValue::Obj(fs);
    let quota_text = u64_to_string(quota_mb);
    let message = s2("Email account ", email.as_str()).concat(" updated (quota: ").concat(
        quota_text.as_str(),
    ).concat("MB)");
    Ok(EmailPlan { email, quota_mb, account_path, meta, message })
}

/// The plan for `delete_email_account`: which record to remove, tolerant
/// of one already absent.
pub fn delete_email_account_plan(params: &JsonValue) -> (r: Result<(String, String), String>)
    ensures
        match spec_get_str(*params, "email"@) {
            None => (r matches Err(m) && m@ == "Missing email"@),
            Some(e) => (r matches Ok(p) && p.0@ == "/var/mail/supercp/"@ + e + ".json"@ && p.1@
                == "Email account "@ + e + " deleted"@),
        },
{
    let email = match get_str(params, "email") {
        Some(s) => s.clone(),
        None => {
            return Err(String::from_str("Missing email"));
        },
    };
    let account_path = s3("/var/mail/supercp/", email.as_str(), ".json");
    let message = s3("Email account ", email.as_str(), " deleted");
    Ok((account_path, message))
}

/// The zone-file line one record contributes: name, time to live, class
/// and type, the priority when one is given, and the value.
pub open spec fn spec_dns_record_line(rec: JsonValue) -> Seq<char> {
    let name = spec_str_or(rec, "name"@, "@"@);
    let rtype = spec_str_or(rec, "type"@, "A"@);
    let value = spec_str_or(rec, "value"@, ""@);
    let ttl = spec_u64_or(rec, "ttl"@, 3600);
    match spec_get_u64(rec, "priority"@) {
        Some(p) => name + " "@ + spec_u64_digits(ttl as int) + " IN "@ + rtype + " "@
            + spec_u64_digits(p as int) + " "@ + value + "\n"@,
        None => name + " "@ + spec_u64_digits(ttl as int) + " IN "@ + rtype + " "@ + value
            + "\n"@,
    }
}

/// The record-to-line reading as one function value.
pub open spec fn dns_record_line_fn() -> spec_fn(JsonValue) -> Seq<char> {
    |rec: JsonValue| spec_dns_record_line(rec)
}

/// The fixed head of every zone file: origin, default time to live, and
/// the authority record.
pub open spec fn spec_zone_header(domain: Seq<char>) -> Seq<char> {
    "$ORIGIN "@ + domain + ".\n"@ + "$TTL 3600\n"@
        + "@ IN SOA ns1.supercp.com. admin.supercp.com. ( 2026010301 3600 600 1209600 3600 )\n"@
}

/// The plan for `update_dns_zone`: the zone file's path and its full
/// rendered text.
#[derive(Debug)]
pub struct DnsZonePlan {
    pub domain: String,
    pub zone_path: String,
    pub content: String,
    pub message: String,
}

/// Validate the parameters of `update_dns_zone` and render the zone.
pub fn update_dns_zone_plan(params: &JsonValue) -> (r: Result<DnsZonePlan, String>)
    ensures
        spec_get_str(*params, "domain"@).is_none() ==> (r matches Err(m) && m@
            == "Missing domain"@),
        spec_get_str(*params, "domain"@).is_some() && spec_get_arr(*params, "records"@).is_none()
            ==> (r matches Err(m) && m@ == "Missing records"@),
        spec_get_str(*params, "domain"@).is_some() && spec_get_arr(
            *params,
            "records"@,
        ).is_some() ==> (r matches Ok(p) && {
            let d = spec_get_str(*params, "domain"@).unwrap();
            let recs = spec_get_arr(*params, "records"@).unwrap();
            &&& p.domain@ == d
            &&& p.zone_path@ == "/etc/supercp/dns/"@ + d + ".zone"@
            &&& p.content@ == spec_zone_header(d) + spec_concat_map(recs, dns_record_line_fn())
            &&& p.message@ == "DNS zone updated for "@ + d
        }),
{
    let domain = match get_str(params, "domain") {
        Some(s) => s.clone(),
        None => {
            return Err(String::from_str("Missing domain"));
        },
    };
    let records = match get_arr(params, "records") {
        Some(a) => a,
        None => {
            return Err(String::from_str("Missing records"));
        },
    };
    let zone_path = s3("/etc/supercp/dns/", domain.as_str(), ".zone");

    let mut content = s3("$ORIGIN ", domain.as_str(), ".\n").concat("$TTL 3600\n").concat(
        "@ IN SOA ns1.supercp.com. admin.supercp.com. ( 2026010301 3600 600 1209600 3600 )\n",
    );
    let ghost header = content@;
    let n = records.len();
    let mut i: usize = 0;
    proof {
        assert(records@.take(0) =~= Seq::<JsonValue>::empty());
        assert(content@ =~= header + spec_concat_map(
            records@.take(0),
            dns_record_line_fn(),
        ));
    }
    while i < n
        invariant
            n == records@.len(),
            i <= n,
            header == spec_zone_header(domain@),
            content@ == header + spec_concat_map(records@.take(i as int), dns_record_line_fn()),
        decreases n - i,
    {
        let rec = &records[i];
        let name = str_or(rec, "name", "@");
        let rtype = str_or(rec, "type", "A");
        let value = str_or(rec, "value", "");
        let ttl = u64_or(rec, "ttl", 3600);
        let ttl_text = u64_to_string(ttl);
        let line: String = match crate::json::get_u64(rec, "priority") {
            Some(p) => {
                let p_text = u64_to_string(p);
                name.clone().concat(" ").concat(ttl_text.as_str()).concat(" IN ").concat(
                    rtype.as_str(),
                ).concat(" ").concat(p_text.as_str()).concat(" ").concat(value.as_str()).concat(
                    "\n",
                )
            },
            None => {
                name.clone().concat(" ").concat(ttl_text.as_str()).concat(" IN ").concat(
                    rtype.as_str(),
                ).concat(" ").concat(value.as_str()).concat("\n")
            },
        };
        proof {
            assert(line@ == spec_dns_record_line(records@[i as int]));
        }
        content.append(line.as_str());
        proof {
            lemma_concat_map_push(records@.take(i as int), records@[i as int], dns_record_line_fn());
            assert(records@.take(i + 1) =~= records@.take(i as int).push(records@[i as int]));
            assert(content@ =~= header + spec_concat_map(
                records@.take(i + 1),
                dns_record_line_fn(),
            ));
        }
        i += 1;
    }
    proof {
        assert(records@.take(n as int) =~= records@);
    }
    let message = s2("DNS zone updated for ", domain.as_str());
    Ok(DnsZonePlan { domain, zone_path, content, message })
}

/// The plan for `delete_dns_zone`: which zone file to remove, tolerant
/// of one already absent.
pub fn delete_dns_zone_plan(params: &JsonValue) -> (r: Result<(String, String), String>)
    ensures
        match spec_get_str(*params, "domain"@) {
            None => (r matches Err(m) && m@ == "Missing domain"@),
            Some(d) => (r matches Ok(p) && p.0@ == "/etc/supercp/dns/"@ + d + ".zone"@ && p.1@
                == "DNS zone deleted for "@ + d),
        },
{
    let domain = match get_str(params, "domain") {
        Some(s) => s.clone(),
        None => {
            return Err(String::from_str("Missing domain"));
        },
    };
    let zone_path = s3("/etc/supercp/dns/", domain.as_str(), ".zone");
    let message = s2("DNS zone deleted for ", domain.as_str());
    Ok((zone_path, message))
}

/// The crontab line one job contributes: its schedule, then its command.
pub open spec fn spec_cron_job_line(job: JsonValue) -> Seq<char> {
    spec_str_or(job, "schedule"@, ""@) + " "@ + spec_str_or(job, "command"@, ""@) + "\n"@
}

/// The job-to-line reading as one function value.
pub open spec fn cron_job_line_fn() -> spec_fn(JsonValue) -> Seq<char> {
    |job: JsonValue| spec_cron_job_line(job)
}

/// The plan for `update_cron_jobs`: the stored file's path and text, and
/// the argument vector applying it to the account's crontab.
#[derive(Debug)]
pub struct CronPlan {
    pub user: String,
    pub cron_path: String,
    pub content: String,
    pub args: Vec<String>,
}

/// Validate the parameters of `update_cron_jobs` and render the file.
pub fn update_cron_jobs_plan(params: &JsonValue) -> (r: Result<CronPlan, String>)
    ensures
        spec_get_str(*params, "user"@).is_none() ==> (r matches Err(m) && m@
            == "Missing user"@),
        spec_get_str(*params, "user"@).is_some() && spec_get_arr(*params, "jobs"@).is_none()
            ==> (r matches Err(m) && m@ == "Missing jobs"@),
        spec_get_str(*params, "user"@).is_some() && spec_get_arr(
            *params,
            "jobs"@,
        ).is_some() ==> (r matches Ok(p) && {
            let u = spec_get_str(*params, "user"@).unwrap();
            let jobs = spec_get_arr(*params, "jobs"@).unwrap();
            &&& p.user@ == u
            &&& p.cron_path@ == "/var/spool/supercp/cron/"@ + u + ".cron"@
            &&& p.content@ == spec_concat_map(jobs, cron_job_line_fn())
            &&& p.args.deep_view() == seq!["-u"@, u, "/var/spool/supercp/cron/"@ + u
                + ".cron"@]
        }),
{
    let user = match get_str(params, "user") {
        Some(s) => s.clone(),
        None => {
            return Err(String::from_str("Missing user"));
        },
    };
    let jobs = match get_arr(params, "jobs") {
        Some(a) => a,
        None => {
            return Err(String::from_str("Missing jobs"));
        },
    };
    let cron_path = s3("/var/spool/supercp/cron/", user.as_str(), ".cron");

    let mut content = String::new();
    let n = jobs.len();
    let mut i: usize = 0;
    proof {
        assert(jobs@.take(0) =~= Seq::<JsonValue>::empty());
        assert(content@ =~= spec_concat_map(jobs@.take(0), cron_job_line_fn()));
    }
    while i < n
        invariant
            n == jobs@.len(),
            i <= n,
            content@ == spec_concat_map(jobs@.take(i as int), cron_job_line_fn()),
        decreases n - i,
    {
        let job = &jobs[i];
        let schedule = str_or(job, "schedule", "");
        let command = str_or(job, "command", "");
        let line = schedule.clone().concat(" ").concat(command.as_str()).concat("\n");
        proof {
            assert(line@ == spec_cron_job_line(jobs@[i as int]));
        }
        content.append(line.as_str());
        proof {
            lemma_concat_map_push(jobs@.take(i as int), jobs@[i as int], cron_job_line_fn());
            assert(jobs@.take(i + 1) =~= jobs@.take(i as int).push(jobs@[i as int]));
            assert(content@ =~= spec_concat_map(jobs@.take(i + 1), cron_job_line_fn()));
        }
        i += 1;
    }
    proof {
        assert(jobs@.take(n as int) =~= jobs@);
    }

    let mut args: Vec<String> = Vec::new();
    args.push(String::from_str("-u"));
    args.push(user.clone());
    args.push(cron_path.clone());
    proof {
        assert(args.deep_view() =~= seq!["-u"@, user@, cron_path@]);
    }
    Ok(CronPlan { user, cron_path, content, args })
}

/// The answer for `update_cron_jobs` once the crontab tool has run.
pub fn update_cron_jobs_report(user: &str, command_ok: bool) -> (r: Result<String, String>)
    ensures
        command_ok ==> (r matches Ok(m) && m@ == "Cron jobs updated and applied for "@ + user@),
        !command_ok ==> (r matches Err(m) && m@ == "Failed to apply crontab for "@ + user@),
{
    if command_ok {
        Ok(s2("Cron jobs updated and applied for ", user))
    } else {
        Err(s2("Failed to apply crontab for ", user))
    }
}

/// The plan for `list_cron_jobs`: which stored file to read; an absent
/// file simply means no jobs.
pub fn list_cron_jobs_plan(params: &JsonValue) -> (r: Result<String, String>)
    ensures
        match spec_get_str(*params, "user"@) {
            None => (r matches Err(m) && m@ == "Missing user"@),
            Some(u) => (r matches Ok(p) && p@ == "/var/spool/supercp/cron/"@ + u + ".cron"@),
        },
{
    let user = match get_str(params, "user") {
        Some(s) => s.clone(),
        None => {
            return Err(String::from_str("Missing user"));
        },
    };
    Ok(s3("/var/spool/supercp/cron/", user.as_str(), ".cron"))
}

} // verus!
