use vstd::prelude::*;
use vstd::string::StringExecFns;
use crate::json::{get_str, spec_get_str, spec_str_or, str_or, JsonValue};
use crate::text::{contains_str, s2, s3, spec_contains};

verus! {

/// The plan for `request_ssl_cert`: the issuance call's argument vector
/// and the two files whose presence proves the certificate exists.
#[derive(Debug)]
pub struct SslPlan {
    pub domain: String,
    pub email: String,
    pub cert_path: String,
    pub key_path: String,
    pub args: Vec<String>,
}

/// Validate the parameters of `request_ssl_cert` and lay out the call.
pub fn request_ssl_cert_plan(params: &JsonValue) -> (r: Result<SslPlan, String>)
    ensures
        match spec_get_str(*params, "domain"@) {
            None => (r matches Err(m) && m@ == "Missing domain"@),
            Some(d) => (r matches Ok(p) && {
                let email = spec_str_or(*params, "email"@, "admin@example.com"@);
                &&& p.domain@ == d
                &&& p.email@ == email
                &&& p.cert_path@ == "/etc/letsencrypt/live/"@ + d + "/fullchain.pem"@
                &&& p.key_path@ == "/etc/letsencrypt/live/"@ + d + "/privkey.pem"@
                &&& p.args.deep_view() == seq!["-n"@, "certbot"@, "certonly"@,
                    "--non-interactive"@, "--agree-tos"@, "--nginx"@, "-d"@, d, "-m"@, email,
                    "--register-unsafely-without-email"@]
            }),
        },
{
    let domain = match get_str(params, "domain") {
        Some(s) => s.clone(),
        None => {
            return Err(String::from_str("Missing domain"));
        },
    };
    let email = str_or(params, "email", "admin@example.com");
    let cert_path = s3("/etc/letsencrypt/live/", domain.as_str(), "/fullchain.pem");
    let key_path = s3("/etc/letsencrypt/live/", domain.as_str(), "/privkey.pem");
    let mut args: Vec<String> = Vec::new();
    args.push(String::from_str("-n"));
    args.push(String::from_str("certbot"));
    args.push(String::from_str("certonly"));
    args.push(String::from_str("--non-interactive"));
    args.push(String::from_str("--agree-tos"));
    args.push(String::from_str("--nginx"));
    args.push(String::from_str("-d"));
    args.push(domain.clone());
    args.push(String::from_str("-m"));
    args.push(email.clone());
    args.push(String::from_str("--register-unsafely-without-email"));
    proof {
        assert(args.deep_view() =~= seq!["-n"@, "certbot"@, "certonly"@, "--non-interactive"@,
            "--agree-tos"@, "--nginx"@, "-d"@, domain@, "-m"@, email@,
            "--register-unsafely-without-email"@]);
    }
    Ok(SslPlan { domain, email, cert_path, key_path, args })
}

/// Whether a failed issuance run is tolerated: the tool's diagnostic may
/// say the certificate is already there or not yet due for renewal.
pub open spec fn spec_ssl_failure_tolerated(stderr: Seq<char>) -> bool {
    spec_contains(stderr, "Certificate not due for renewal"@) || spec_contains(
        stderr,
        "Cert already exists"@,
    )
}

/// The check after the issuance tool has run: a failure passes only when
/// its diagnostic says the certificate already exists.
pub fn ssl_command_check(plan: &SslPlan, command_ok: bool, stderr: &str) -> (r: Result<(), String>)
    ensures
        command_ok ==> r is Ok,
        !command_ok && spec_ssl_failure_tolerated(stderr@) ==> r is Ok,
        !command_ok && !spec_ssl_failure_tolerated(stderr@) ==> (r matches Err(m) && m@
            == "Failed to request SSL certificate for "@ + plan.domain@ + ": "@ + stderr@),
{
    if command_ok {
        Ok(())
    } else if contains_str(stderr, "Certificate not due for renewal") || contains_str(
        stderr,
        "Cert already exists",
    ) {
        Ok(())
    } else {
        Err(
            s2("Failed to request SSL certificate for ", plan.domain.as_str()).concat(": ")
                .concat(stderr),
        )
    }
}

/// The final check: both certificate files must be on disk after the
/// run, whatever the tool reported.
pub fn ssl_files_check(plan: &SslPlan, cert_exists: bool, key_exists: bool) -> (r: Result<
    String,
    String,
>)
    ensures
        cert_exists && key_exists ==> (r matches Ok(m) && m@
            == "SSL certificate requested and configured for "@ + plan.domain@
            + " via Let's Encrypt"@),
        !(cert_exists && key_exists) ==> (r matches Err(m) && m@
            == "Certificate files not found after certbot execution for "@ + plan.domain@),
{
    if cert_exists && key_exists {
        Ok(
            s3(
                "SSL certificate requested and configured for ",
                plan.domain.as_str(),
                " via Let's Encrypt",
            ),
        )
    } else {
        Err(s2("Certificate files not found after certbot execution for ", plan.domain.as_str()))
    }
}

} // verus!
