use super_daemon::firewall::{
    apply_firewall_rule_plan, delete_firewall_rule_plan, parse_firewall_status,
    render_firewall_status, rule_command_report, toggle_firewall_args, toggle_firewall_plan,
    toggle_firewall_report,
};
use super_daemon::json::JsonValue;
use super_daemon::state::DaemonState;

#[test]
fn toggle_requires_the_enable_flag() {
    let empty = JsonValue::Obj(vec![]);
    assert_eq!(toggle_firewall_plan(&empty), Err("Missing enable parameter".to_string()));
    let on = JsonValue::Obj(vec![("enable".to_string(), JsonValue::Bool(true))]);
    assert_eq!(toggle_firewall_plan(&on), Ok(true));
}

#[test]
fn toggle_arguments_match_the_request() {
    assert_eq!(toggle_firewall_args(true), vec!["-n", "ufw", "--force", "enable"]);
    assert_eq!(toggle_firewall_args(false), vec!["-n", "ufw", "disable"]);
}

#[test]
fn successful_toggle_moves_the_flag_to_the_requested_value() {
    let mut state = DaemonState::new();
    assert!(state.firewall_active);
    let r = toggle_firewall_report(&mut state, false, true);
    assert_eq!(r, Ok("Firewall disabled".to_string()));
    assert!(!state.firewall_active);
    let r = toggle_firewall_report(&mut state, true, true);
    assert_eq!(r, Ok("Firewall enabled".to_string()));
    assert!(state.firewall_active);
}

#[test]
fn failed_toggle_keeps_the_prior_value() {
    let mut state = DaemonState::new();
    let r = toggle_firewall_report(&mut state, false, false);
    assert_eq!(r, Err("Failed to disable firewall".to_string()));
    assert!(state.firewall_active);
}

#[test]
fn serialized_opposite_toggles_end_in_one_of_the_requested_states() {
    // Two concurrent toggles are serialized by the state lock; whichever
    // order they land in, the flag reads as one of the two requests.
    let mut first_order = DaemonState::new();
    let _ = toggle_firewall_report(&mut first_order, true, true);
    let _ = toggle_firewall_report(&mut first_order, false, true);
    assert!(!first_order.firewall_active);

    let mut second_order = DaemonState::new();
    let _ = toggle_firewall_report(&mut second_order, false, true);
    let _ = toggle_firewall_report(&mut second_order, true, true);
    assert!(second_order.firewall_active);

    assert!([true, false].contains(&first_order.firewall_active));
    assert!([true, false].contains(&second_order.firewall_active));
}

#[test]
fn apply_rule_builds_discrete_arguments() {
    let params = JsonValue::Obj(vec![("port".to_string(), JsonValue::UInt(8080))]);
    let cmd = apply_firewall_rule_plan(&params).unwrap();
    assert_eq!(cmd.args, vec!["-n", "ufw", "allow", "to", "any", "port", "8080", "proto", "tcp"]);
    assert_eq!(cmd.ok_message, "Firewall rule applied: allow 8080/tcp from any");
    assert_eq!(cmd.err_message, "Failed to apply firewall rule for port 8080");
}

#[test]
fn apply_rule_inserts_a_source_when_one_is_named() {
    let params = JsonValue::Obj(vec![
        ("port".to_string(), JsonValue::UInt(22)),
        ("protocol".to_string(), JsonValue::Str("udp".to_string())),
        ("action".to_string(), JsonValue::Str("deny".to_string())),
        ("source".to_string(), JsonValue::Str("10.0.0.1".to_string())),
    ]);
    let cmd = apply_firewall_rule_plan(&params).unwrap();
    assert_eq!(
        cmd.args,
        vec!["-n", "ufw", "deny", "from", "10.0.0.1", "to", "any", "port", "22", "proto", "udp"]
    );
    assert_eq!(cmd.ok_message, "Firewall rule applied: deny 22/udp from 10.0.0.1");
}

#[test]
fn apply_rule_requires_a_port() {
    let params = JsonValue::Obj(vec![]);
    assert!(matches!(apply_firewall_rule_plan(&params), Err(m) if m == "Missing port"));
}

#[test]
fn delete_rule_builds_the_slash_form() {
    let params = JsonValue::Obj(vec![("port".to_string(), JsonValue::UInt(443))]);
    let cmd = delete_firewall_rule_plan(&params).unwrap();
    assert_eq!(cmd.args, vec!["-n", "ufw", "delete", "allow", "443/tcp"]);
    assert_eq!(cmd.ok_message, "Firewall rule deleted: allow 443/tcp");
    assert_eq!(cmd.err_message, "Failed to delete firewall rule for port 443");
}

#[test]
fn rule_report_follows_the_exit_status() {
    let params = JsonValue::Obj(vec![("port".to_string(), JsonValue::UInt(443))]);
    let cmd = delete_firewall_rule_plan(&params).unwrap();
    let ok_message = cmd.ok_message.clone();
    assert_eq!(rule_command_report(cmd, true), Ok(ok_message));
    let cmd2 = delete_firewall_rule_plan(&params).unwrap();
    let err_message = cmd2.err_message.clone();
    assert_eq!(rule_command_report(cmd2, false), Err(err_message));
}

#[test]
fn status_output_parses_into_rules() {
    let output = "Status: active\n\nTo                         Action      From\n--                         ------      ----\n80/tcp                     ALLOW       Anywhere\n22/udp                     DENY        10.0.0.5\nAnywhere                   ALLOW       203.0.113.0/24\n";
    let (active, rules) = parse_firewall_status(output);
    assert!(active);
    // The last line carries its slash in the source column, so its first
    // column does not split in two and the line yields no rule.
    assert_eq!(rules.len(), 2);
    assert_eq!(rules[0].port, 80);
    assert_eq!(rules[0].protocol, "tcp");
    assert_eq!(rules[0].action, "allow");
    assert_eq!(rules[0].source, "Anywhere");
    assert_eq!(rules[1].port, 22);
    assert_eq!(rules[1].protocol, "udp");
    assert_eq!(rules[1].action, "deny");
    assert_eq!(rules[1].source, "10.0.0.5");
}

#[test]
fn inactive_status_parses_with_no_rules() {
    let (active, rules) = parse_firewall_status("Status: inactive\n");
    assert!(!active);
    assert!(rules.is_empty());
}

#[test]
fn status_renders_as_a_wire_object() {
    let (active, rules) = parse_firewall_status("Status: active\n80/tcp ALLOW Anywhere\n");
    let v = render_firewall_status(active, &rules);
    match v {
        JsonValue::Obj(fields) => {
            assert_eq!(fields.len(), 2);
            assert_eq!(fields[0].0, "status");
            assert!(matches!(&fields[0].1, JsonValue::Str(s) if s == "active"));
            assert_eq!(fields[1].0, "rules");
            match &fields[1].1 {
                JsonValue::Arr(items) => {
                    assert_eq!(items.len(), 1);
                    match &items[0] {
                        JsonValue::Obj(rf) => {
                            assert_eq!(rf[0].0, "port");
                            assert!(matches!(rf[0].1, JsonValue::UInt(80)));
                            assert_eq!(rf[1].0, "protocol");
                            assert!(matches!(&rf[1].1, JsonValue::Str(s) if s == "tcp"));
                            assert_eq!(rf[2].0, "action");
                            assert!(matches!(&rf[2].1, JsonValue::Str(s) if s == "allow"));
                            assert_eq!(rf[3].0, "source");
                            assert!(matches!(&rf[3].1, JsonValue::Str(s) if s == "Anywhere"));
                        },
                        _ => panic!("rule is not an object"),
                    }
                },
                _ => panic!("rules are not an array"),
            }
        },
        _ => panic!("status is not an object"),
    }
}
