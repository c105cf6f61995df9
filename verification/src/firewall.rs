use vstd::prelude::*;
use vstd::string::StringExecFns;
use crate::json::{
    get_bool, get_u64, spec_get_bool, spec_get_u64, spec_str_or, str_or, JsonValue,
};
use crate::seqtools::{lemma_filter_map_push, spec_filter_map};
use crate::state::{spec_toggle, DaemonState};
use crate::text::{
    contains_str, parse_u64_or_zero, s3, s5, s7, spec_contains, spec_lines, spec_lower,
    spec_parse_u64_or_zero, spec_split_char, spec_tokens, spec_u64_digits, split_char,
    split_lines, split_whitespace_vec, to_lower_ascii, u64_to_string,
};

verus! {

/// What the enable/disable method asks of the caller: the `enable` flag,
/// or the failure naming the missing field.
pub fn toggle_firewall_plan(params: &JsonValue) -> (r: Result<bool, String>)
    ensures
        match spec_get_bool(*params, "enable"@) {
            Some(b) => r == Ok::<bool, String>(b),
            None => (r matches Err(m) && m@ == "Missing enable parameter"@),
        },
{
    match get_bool(params, "enable") {
        Some(b) => Ok(b),
        None => Err(String::from_str("Missing enable parameter")),
    }
}

/// The argument vector handed to the privileged firewall tool for one
/// toggle; values are discrete arguments, never a shell string.
pub fn toggle_firewall_args(enable: bool) -> (r: Vec<String>)
    ensures
        enable ==> r.deep_view() == seq!["-n"@, "ufw"@, "--force"@, "enable"@],
        !enable ==> r.deep_view() == seq!["-n"@, "ufw"@, "disable"@],
{
    let mut args: Vec<String> = Vec::new();
    args.push(String::from_str("-n"));
    args.push(String::from_str("ufw"));
    if enable {
        args.push(String::from_str("--force"));
        args.push(String::from_str("enable"));
        proof {
            assert(args.deep_view() =~= seq!["-n"@, "ufw"@, "--force"@, "enable"@]);
        }
    } else {
        args.push(String::from_str("disable"));
        proof {
            assert(args.deep_view() =~= seq!["-n"@, "ufw"@, "disable"@]);
        }
    }
    args
}

/// Fold the external command's outcome into the shared state and the
/// response: the flag moves exactly to the requested value on success and
/// keeps its prior value on failure.
pub fn toggle_firewall_report(state: &mut DaemonState, enable: bool, command_ok: bool) -> (r:
    Result<String, String>)
    ensures
        *final(state) == spec_toggle(*old(state), enable, command_ok),
        command_ok ==> (r matches Ok(m) && m@ == (if enable {
            "Firewall enabled"@
        } else {
            "Firewall disabled"@
        })),
        !command_ok ==> (r matches Err(m) && m@ == (if enable {
            "Failed to enable firewall"@
        } else {
            "Failed to disable firewall"@
        })),
{
    state.apply_toggle(enable, command_ok);
    if command_ok {
        if enable {
            Ok(String::from_str("Firewall enabled"))
        } else {
            Ok(String::from_str("Firewall disabled"))
        }
    } else {
        if enable {
            Err(String::from_str("Failed to enable firewall"))
        } else {
            Err(String::from_str("Failed to disable firewall"))
        }
    }
}

/// A planned invocation of the firewall tool, with the two texts the
/// caller is answered with.
#[derive(Debug)]
pub struct RuleCommand {
    pub args: Vec<String>,
    pub ok_message: String,
    pub err_message: String,
}

/// The argument vector for applying one rule.
pub open spec fn spec_apply_rule_args(
    port: u64,
    protocol: Seq<char>,
    action: Seq<char>,
    source: Seq<char>,
) -> Seq<Seq<char>> {
    let head = seq!["-n"@, "ufw"@, action];
    let tail = seq!["to"@, "any"@, "port"@, spec_u64_digits(port as int), "proto"@, protocol];
    if source != "any"@ {
        head + seq!["from"@, source] + tail
    } else {
        head + tail
    }
}

/// The plan for `apply_firewall_rule`: the tool's argument vector and
/// both answer texts, or the failure naming the missing field.
pub fn apply_firewall_rule_plan(params: &JsonValue) -> (r: Result<RuleCommand, String>)
    ensures
        match spec_get_u64(*params, "port"@) {
            None => (r matches Err(m) && m@ == "Missing port"@),
            Some(port) => (r matches Ok(c) && {
                let protocol = spec_str_or(*params, "protocol"@, "tcp"@);
                let action = spec_str_or(*params, "action"@, "allow"@);
                let source = spec_str_or(*params, "source"@, "any"@);
                &&& c.args.deep_view() == spec_apply_rule_args(port, protocol, action, source)
                &&& c.ok_message@ == "Firewall rule applied: "@ + action + " "@ + spec_u64_digits(
                    port as int,
                ) + "/"@ + protocol + " from "@ + source
                &&& c.err_message@ == "Failed to apply firewall rule for port "@
                    + spec_u64_digits(port as int)
            }),
        },
{
    let port = match get_u64(params, "port") {
        Some(p) => p,
        None => {
            return Err(String::from_str("Missing port"));
        },
    };
    let protocol = str_or(params, "protocol", "tcp");
    let action = str_or(params, "action", "allow");
    let source = str_or(params, "source", "any");
    let port_text = u64_to_string(port);

    let mut args: Vec<String> = Vec::new();
    args.push(String::from_str("-n"));
    args.push(String::from_str("ufw"));
    args.push(action.clone());
    if !crate::text::str_eq(source.as_str(), "any") {
        args.push(String::from_str("from"));
        args.push(source.clone());
    }
    args.push(String::from_str("to"));
    args.push(String::from_str("any"));
    args.push(String::from_str("port"));
    args.push(port_text.clone());
    args.push(String::from_str("proto"));
    args.push(protocol.clone());
    proof {
        assert(args.deep_view() =~= spec_apply_rule_args(
            port,
            protocol@,
            action@,
            source@,
        ));
    }

    let ok_message = s7(
        "Firewall rule applied: ",
        action.as_str(),
        " ",
        port_text.as_str(),
        "/",
        protocol.as_str(),
        " from ",
    ).concat(source.as_str());
    let err_message = crate::text::s2("Failed to apply firewall rule for port ", port_text.as_str());
    Ok(RuleCommand { args, ok_message, err_message })
}

/// The plan for `delete_firewall_rule`.
pub fn delete_firewall_rule_plan(params: &JsonValue) -> (r: Result<RuleCommand, String>)
    ensures
        match spec_get_u64(*params, "port"@) {
            None => (r matches Err(m) && m@ == "Missing port"@),
            Some(port) => (r matches Ok(c) && {
                let protocol = spec_str_or(*params, "protocol"@, "tcp"@);
                let action = spec_str_or(*params, "action"@, "allow"@);
                &&& c.args.deep_view() == seq!["-n"@, "ufw"@, "delete"@, action, spec_u64_digits(
                    port as int,
                ) + "/"@ + protocol]
                &&& c.ok_message@ == "Firewall rule deleted: "@ + action + " "@ + spec_u64_digits(
                    port as int,
                ) + "/"@ + protocol
                &&& c.err_message@ == "Failed to delete firewall rule for port "@
                    + spec_u64_digits(port as int)
            }),
        },
{
    let port = match get_u64(params, "port") {
        Some(p) => p,
        None => {
            return Err(String::from_str("Missing port"));
        },
    };
    let protocol = str_or(params, "protocol", "tcp");
    let action = str_or(params, "action", "allow");
    let port_text = u64_to_string(port);

    let mut args: Vec<String> = Vec::new();
    args.push(String::from_str("-n"));
    args.push(String::from_str("ufw"));
    args.push(String::from_str("delete"));
    args.push(action.clone());
    args.push(s3(port_text.as_str(), "/", protocol.as_str()));
    proof {
        assert(args.deep_view() =~= seq!["-n"@, "ufw"@, "delete"@, action@, spec_u64_digits(
            port as int,
        ) + "/"@ + protocol@]);
    }

    let ok_message = s5(
        "Firewall rule deleted: ",
        action.as_str(),
        " ",
        port_text.as_str(),
        "/",
    ).concat(protocol.as_str());
    let err_message = crate::text::s2(
        "Failed to delete firewall rule for port ",
        port_text.as_str(),
    );
    Ok(RuleCommand { args, ok_message, err_message })
}

/// The answer for a planned rule command once the tool has run: its exit
/// status alone decides.
pub fn rule_command_report(cmd: RuleCommand, command_ok: bool) -> (r: Result<String, String>)
    ensures
        command_ok ==> r == Ok::<String, String>(cmd.ok_message),
        !command_ok ==> r == Err::<String, String>(cmd.err_message),
{
    if command_ok {
        Ok(cmd.ok_message)
    } else {
        Err(cmd.err_message)
    }
}

/// One rule as the status query reports it.
#[derive(Debug)]
pub struct FirewallRule {
    pub port: u64,
    pub protocol: String,
    pub action: String,
    pub source: String,
}

/// Whether the tool's status output names the firewall active.
pub open spec fn spec_firewall_active(output: Seq<char>) -> bool {
    spec_contains(output, "Status: active"@)
}

/// The rule a status line denotes, if it denotes one: the line must hold
/// a slash and an ALLOW or DENY verdict, at least two columns, and a
/// two-part port/protocol first column.
pub open spec fn spec_rule_of_line(line: Seq<char>) -> Option<(u64, Seq<char>, Seq<char>, Seq<char>)> {
    if !(spec_contains(line, "/"@) && (spec_contains(line, "ALLOW"@) || spec_contains(
        line,
        "DENY"@,
    ))) {
        None
    } else {
        let parts = spec_tokens(line);
        if parts.len() < 2 {
            None
        } else {
            let pp = spec_split_char(parts[0], '/');
            if pp.len() != 2 {
                None
            } else {
                Some(
                    (
                        spec_parse_u64_or_zero(pp[0]) as u64,
                        pp[1],
                        spec_lower(parts[1]),
                        if parts.len() > 2 {
                            parts[2]
                        } else {
                            "any"@
                        },
                    ),
                )
            }
        }
    }
}

/// The line-to-rule reading as one function value, shared by the spec
/// and the proofs below.
pub open spec fn rule_of_line_fn() -> spec_fn(Seq<char>) -> Option<
    (u64, Seq<char>, Seq<char>, Seq<char>),
> {
    |l: Seq<char>| spec_rule_of_line(l)
}

/// Every rule the status output lists, in order.
pub open spec fn spec_firewall_rules(output: Seq<char>) -> Seq<(u64, Seq<char>, Seq<char>, Seq<char>)> {
    spec_filter_map(spec_lines(output), rule_of_line_fn())
}

/// Read the firewall tool's status output: the active flag, and each
/// listed rule's port, protocol, lower-cased verdict and source.
pub fn parse_firewall_status(output: &str) -> (r: (bool, Vec<FirewallRule>))
    ensures
        r.0 == spec_firewall_active(output@),
        r.1@.len() == spec_firewall_rules(output@).len(),
        forall|i: int|
            0 <= i < r.1@.len() ==> {
                let e = spec_firewall_rules(output@)[i];
                (#[trigger] r.1@[i]).port == e.0 && r.1@[i].protocol@ == e.1 && r.1@[i].action@
                    == e.2 && r.1@[i].source@ == e.3
            },
{
    let active = contains_str(output, "Status: active");
    let lines = split_lines(output);
    let ghost ldv = lines.deep_view();
    let mut rules: Vec<FirewallRule> = Vec::new();
    let n = lines.len();
    let mut i: usize = 0;
    proof {
        assert(ldv.take(0) =~= Seq::<Seq<char>>::empty());
    }
    while i < n
        invariant
            n == lines@.len(),
            ldv == lines.deep_view(),
            ldv == spec_lines(output@),
            i <= n,
            rules@.len() == spec_filter_map(ldv.take(i as int), rule_of_line_fn()).len(),
            forall|k: int|
                0 <= k < rules@.len() ==> {
                    let e = spec_filter_map(ldv.take(i as int), rule_of_line_fn())[k];
                    (#[trigger] rules@[k]).port == e.0 && rules@[k].protocol@ == e.1
                        && rules@[k].action@ == e.2 && rules@[k].source@ == e.3
                },
        decreases n - i,
    {
        let line = &lines[i];
        proof {
            assert(line@ == ldv[i as int]);
        }
        let ghost prev = spec_filter_map(ldv.take(i as int), rule_of_line_fn());
        if contains_str(line.as_str(), "/") && (contains_str(line.as_str(), "ALLOW")
            || contains_str(line.as_str(), "DENY")) {
            let parts = split_whitespace_vec(line.as_str());
            if parts.len() >= 2 {
                let pp = split_char(parts[0].as_str(), '/');
                if pp.len() == 2 {
                    let port = parse_u64_or_zero(pp[0].as_str());
                    let action = to_lower_ascii(parts[1].as_str());
                    let source = if parts.len() > 2 {
                        parts[2].clone()
                    } else {
                        String::from_str("any")
                    };
                    let rule = FirewallRule { port, protocol: pp[1].clone(), action, source };
                    proof {
                        assert(parts.deep_view()[0] == parts@[0]@);
                        assert(parts.deep_view()[1] == parts@[1]@);
                        if parts@.len() > 2 {
                            assert(parts.deep_view()[2] == parts@[2]@);
                        }
                        assert(pp.deep_view()[0] == pp@[0]@);
                        assert(pp.deep_view()[1] == pp@[1]@);
                        assert(spec_rule_of_line(ldv[i as int]) matches Some(e) && rule.port == e.0
                            && rule.protocol@ == e.1 && rule.action@ == e.2 && rule.source@
                            == e.3);
                    }
                    rules.push(rule);
                    proof {
                        lemma_filter_map_push(ldv.take(i as int), ldv[i as int], rule_of_line_fn());
                        assert(ldv.take(i + 1) =~= ldv.take(i as int).push(ldv[i as int]));
                    }
                } else {
                    proof {
                        lemma_filter_map_push(ldv.take(i as int), ldv[i as int], rule_of_line_fn());
                        assert(ldv.take(i + 1) =~= ldv.take(i as int).push(ldv[i as int]));
                        assert(spec_filter_map(ldv.take(i + 1), rule_of_line_fn()) =~= prev);
                    }
                }
            } else {
                proof {
                    lemma_filter_map_push(ldv.take(i as int), ldv[i as int], rule_of_line_fn());
                    assert(ldv.take(i + 1) =~= ldv.take(i as int).push(ldv[i as int]));
                    assert(spec_filter_map(ldv.take(i + 1), rule_of_line_fn()) =~= prev);
                }
            }
        } else {
            proof {
                lemma_filter_map_push(ldv.take(i as int), ldv[i as int], rule_of_line_fn());
                assert(ldv.take(i + 1) =~= ldv.take(i as int).push(ldv[i as int]));
                assert(spec_filter_map(ldv.take(i + 1), rule_of_line_fn()) =~= prev);
            }
        }
        i += 1;
    }
    proof {
        assert(ldv.take(n as int) =~= ldv);
    }
    (active, rules)
}

/// Whether `v` is the wire object for one reported rule.
pub open spec fn spec_is_rule_json(v: JsonValue, rule: FirewallRule) -> bool {
    &&& v matches JsonValue::Obj(fs)
    &&& fs@.len() == 4
    &&& fs@[0].0@ == "port"@
    &&& fs@[0].1 == JsonValue::UInt(rule.port)
    &&& fs@[1].0@ == "protocol"@
    &&& (fs@[1].1 matches JsonValue::Str(s) && s@ == rule.protocol@)
    &&& fs@[2].0@ == "action"@
    &&& (fs@[2].1 matches JsonValue::Str(s) && s@ == rule.action@)
    &&& fs@[3].0@ == "source"@
    &&& (fs@[3].1 matches JsonValue::Str(s) && s@ == rule.source@)
}

/// The wire value the status query answers with: the textual state and
/// the listed rules.
pub fn render_firewall_status(active: bool, rules: &Vec<FirewallRule>) -> (r: JsonValue)
    ensures
        r matches JsonValue::Obj(fields) && {
            &&& fields@.len() == 2
            &&& fields@[0].0@ == "status"@
            &&& (fields@[0].1 matches JsonValue::Str(s) && s@ == (if active {
                "active"@
            } else {
                "inactive"@
            }))
            &&& fields@[1].0@ == "rules"@
            &&& (fields@[1].1 matches JsonValue::Arr(items) && items@.len() == rules@.len()
                && forall|i: int|
                0 <= i < rules@.len() ==> spec_is_rule_json(#[trigger] items@[i], rules@[i]))
        },
{
    let mut items: Vec<JsonValue> = Vec::new();
    let n = rules.len();
    let mut i: usize = 0;
    while i < n
        invariant
            n == rules@.len(),
            i <= n,
            items@.len() == i,
            forall|k: int|
                0 <= k < i ==> spec_is_rule_json(#[trigger] items@[k], rules@[k]),
        decreases n - i,
    {
        let rule = &rules[i];
        let mut fs: Vec<(String, JsonValue)> = Vec::new();
        fs.push((String::from_str("port"), JsonValue::UInt(rule.port)));
        fs.push((String::from_str("protocol"), JsonValue::Str(rule.protocol.clone())));
        fs.push((String::from_str("action"), JsonValue::Str(rule.action.clone())));
        fs.push((String::from_str("source"), JsonValue::Str(rule.source.clone())));
        items.push(JsonValue::Obj(fs));
        i += 1;
    }
    let mut fields: Vec<(String, JsonValue)> = Vec::new();
    let status_text = if active {
        String::from_str("active")
    } else {
        String::from_str("inactive")
    };
    fields.push((String::from_str("status"), JsonValue::Str(status_text)));
    fields.push((String::from_str("rules"), JsonValue::Arr(items)));
    JsonValue::Obj(fields)
}

} // verus!
