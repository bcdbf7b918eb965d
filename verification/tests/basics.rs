use tenuo_rig::issuer::ControlPlane;
use tenuo_rig::provider::{model_name, select_provider, Provider};
use tenuo_rig::root_key::{parse_root_key, root_key_text, RootKeyError};
use tenuo_rig::text::{
    begins_with, concat3, decimal_text, join, pad, same, signed_decimal_text, take_first_line,
};
use tenuo_rig::tools::agent_report;
use tenuo_rig::tools::delegate_incident::DelegateIncident;
use tenuo_rig::tools::delegate_subtask::DelegateSubtask;
use tenuo_rig::tools::incident_mcp::RemoteReadIncident;
use tenuo_rig::tools::read_incident::ReadIncident;
use tenuo_rig::tools::scale_cluster::ScaleCluster;

#[test]
fn a_root_key_is_read_back() {
    let key = ControlPlane::start().root_public_key();
    let text = root_key_text(&key);
    assert_eq!(text.len(), 64);
    assert_eq!(&text[..16], key.fingerprint());
    assert_eq!(parse_root_key(&text).ok().expect("key"), key);
    assert_eq!(parse_root_key(&text.to_uppercase()).ok().expect("key"), key);
}

#[test]
fn text_that_is_no_root_key_is_refused() {
    match parse_root_key("zz") {
        Err(error) => assert_eq!(error.to_text(), "Invalid character 'z' at position 0"),
        Ok(_) => panic!("accepted"),
    }
    match parse_root_key("abc") {
        Err(error) => assert_eq!(error.to_text(), "Odd number of digits"),
        Ok(_) => panic!("accepted"),
    }
    match parse_root_key("abcd") {
        Err(error) => {
            assert!(matches!(error, RootKeyError::Length));
            assert_eq!(error.to_text(), "root key must be 32 bytes");
        }
        Ok(_) => panic!("accepted"),
    }
    match parse_root_key(&"00".repeat(32)) {
        Err(error) => assert!(matches!(error, RootKeyError::Key(_))),
        Ok(_) => panic!("accepted"),
    }
}

#[test]
fn text_is_put_together() {
    assert_eq!(pad("ab", 4), "ab  ");
    assert_eq!(pad("abcde", 4), "abcde");
    assert_eq!(decimal_text(0), "0");
    assert_eq!(decimal_text(10_907), "10907");
    assert_eq!(decimal_text(u64::MAX), "18446744073709551615");
    assert_eq!(signed_decimal_text(-7), "-7");
    assert_eq!(signed_decimal_text(i64::MIN), "-9223372036854775808");
    assert_eq!(join(&vec!["a".to_string(), "b".to_string()], "\n"), "a\nb");
    assert_eq!(join(&vec![], "\n"), "");
    assert_eq!(concat3("a", "b", "c"), "abc");
}

#[test]
fn text_is_compared() {
    assert!(begins_with("INC-42", "INC-"));
    assert!(begins_with("INC-42", ""));
    assert!(!begins_with("INC", "INC-"));
    assert!(!begins_with("inc-42", "INC-"));
    assert!(same("a", "a"));
    assert!(!same("a", "ab"));
    assert!(!same("ab", "a"));
    assert!(!same("a", "b"));
}

#[test]
fn the_first_line_ends_at_the_line_feed() {
    assert_eq!(take_first_line("one\ntwo"), "one");
    assert_eq!(take_first_line("one\r\ntwo"), "one");
    assert_eq!(take_first_line("one\r"), "one\r");
    assert_eq!(take_first_line("\none"), "");
    assert_eq!(take_first_line("caf\u{e9} x\n"), "caf\u{e9} x");
    assert_eq!(take_first_line(""), "");
}

#[test]
fn an_agents_run_ends_in_a_report_or_an_error() {
    assert_eq!(agent_report(Ok("done".to_string())).ok().expect("report"), "done");
    let error = agent_report(Err("stopped".to_string())).err().expect("error");
    assert_eq!(error.to_text(), "operation failed: stopped");
}

#[test]
fn tools_describe_themselves() {
    assert_eq!(ScaleCluster::NAME, "scale_cluster");
    assert_eq!(
        ScaleCluster.description(),
        "Scale a Kubernetes cluster to a replica count."
    );
    assert_eq!(
        ScaleCluster.parameters().to_string(),
        "{\"properties\":{\"cluster\":{\"type\":\"string\"},\"replicas\":{\"type\":\"integer\"}},\"required\":[\"cluster\",\"replicas\"],\"type\":\"object\"}"
    );
    assert_eq!(ReadIncident::NAME, "read_incident");
    assert_eq!(
        ReadIncident.description(),
        "Read an incident record from the security system of record."
    );
    assert_eq!(
        ReadIncident.parameters().to_string(),
        "{\"properties\":{\"incident_id\":{\"type\":\"string\"}},\"required\":[\"incident_id\"],\"type\":\"object\"}"
    );
    assert_eq!(DelegateIncident::NAME, "delegate_incident");
    assert_eq!(
        DelegateIncident.description(),
        "Ask the incident worker agent to investigate one incident."
    );
    assert_eq!(DelegateIncident.parameters(), ReadIncident.parameters());
    assert_eq!(DelegateSubtask::NAME, "delegate_subtask");
    assert_eq!(
        DelegateSubtask.description(),
        "Hand one sub-step of the investigation to a reader agent."
    );
    assert_eq!(
        DelegateSubtask.parameters().to_string(),
        "{\"properties\":{\"incident_id\":{\"type\":\"string\"},\"scope\":{\"enum\":[\"incident\",\"all-incidents\"],\"type\":\"string\"}},\"required\":[\"incident_id\"],\"type\":\"object\"}"
    );
    assert_eq!(RemoteReadIncident::NAME, "read_incident");
    assert_eq!(
        RemoteReadIncident.description(),
        "Read an incident record from the security system of record."
    );
    assert_eq!(
        RemoteReadIncident.parameters().to_string(),
        "{\"additionalProperties\":false,\"properties\":{\"incident_id\":{\"type\":\"string\"}},\"required\":[\"incident_id\"],\"type\":\"object\"}"
    );
}

#[test]
fn a_provider_is_selected_by_name_or_by_key() {
    let none: Option<String> = None;
    assert!(matches!(select_provider(&none, true), Ok(Provider::OpenAi)));
    assert!(matches!(select_provider(&none, false), Ok(Provider::Anthropic)));
    let openai = Some("openai".to_string());
    assert!(matches!(select_provider(&openai, false), Ok(Provider::OpenAi)));
    let anthropic = Some("anthropic".to_string());
    assert!(matches!(select_provider(&anthropic, true), Ok(Provider::Anthropic)));
    let other = Some("acme".to_string());
    assert_eq!(
        select_provider(&other, true).err().expect("error"),
        "unknown LLM_PROVIDER: acme"
    );
}

#[test]
fn a_model_is_the_wanted_one_or_the_default() {
    let none: Option<String> = None;
    assert_eq!(model_name(&Provider::OpenAi, &none, "usual"), "gpt-4o");
    assert_eq!(model_name(&Provider::Anthropic, &none, "usual"), "usual");
    let wanted = Some("m".to_string());
    assert_eq!(model_name(&Provider::OpenAi, &wanted, "usual"), "m");
    assert_eq!(model_name(&Provider::Anthropic, &wanted, "usual"), "m");
}
