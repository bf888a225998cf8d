use indy_cli::data::{AttribData, ClaimDefData, Endpoint, NymData, SchemaData};
use indy_cli::error::{handle_get_command_error, handle_send_command_error, ErrorCode};
use indy_cli::ledger::{
    get_response, GetAttribCommand, GetClaimDefCommand, GetNymCommand, GetSchemaCommand, Group,
    SenCustomCommand, SendAttribCommand, SendClaimDefCommand, SendNodeCommand, SendNymCommand,
    SendSchemaCommand,
};
use indy_cli::metadata::CommandMetadata;
use indy_cli::text::{debug_option_str, i32_to_string};

fn names(m: &CommandMetadata) -> Vec<(String, bool)> {
    m.params.iter().map(|p| (p.name.clone(), p.is_optional)).collect()
}

fn other(name: &str) -> ErrorCode {
    ErrorCode::Other(name.to_string())
}

#[test]
fn decimal_text_of_i32() {
    assert_eq!(i32_to_string(0), "0");
    assert_eq!(i32_to_string(7), "7");
    assert_eq!(i32_to_string(9701), "9701");
    assert_eq!(i32_to_string(-305), "-305");
    assert_eq!(i32_to_string(i32::MAX), "2147483647");
    assert_eq!(i32_to_string(i32::MIN), "-2147483648");
}

#[test]
fn debug_of_strings() {
    assert_eq!(debug_option_str(Some("a\"b\\c")), "Some(\"a\\\"b\\\\c\")");
    assert_eq!(debug_option_str(Some("key")), "Some(\"key\")");
    assert_eq!(debug_option_str(None), "None");
}

#[test]
fn send_error_messages() {
    assert_eq!(
        handle_send_command_error(ErrorCode::CommonInvalidStructure, "did1", 1, 2),
        "Wrong command params"
    );
    assert_eq!(
        handle_send_command_error(ErrorCode::WalletNotFoundError, "did1", 1, 2),
        "Submitter DID: \"did1\" not found"
    );
    assert_eq!(
        handle_send_command_error(ErrorCode::LedgerInvalidTransaction, "did1", 1, 2),
        "Invalid transaction"
    );
    assert_eq!(
        handle_send_command_error(ErrorCode::WalletIncompatiblePoolError, "did1", 12, -3),
        "Pool handle \"12\" invalid for wallet handle \"-3\""
    );
    assert_eq!(
        handle_send_command_error(other("PoolLedgerTimeout"), "did1", 1, 2),
        "Indy SDK error occurred PoolLedgerTimeout"
    );
}

#[test]
fn get_error_messages() {
    assert_eq!(handle_get_command_error(ErrorCode::CommonInvalidStructure), "Wrong command params");
    assert_eq!(handle_get_command_error(ErrorCode::LedgerInvalidTransaction), "Invalid transaction");
    assert_eq!(
        handle_get_command_error(ErrorCode::WalletNotFoundError),
        "Indy SDK error occurred WalletNotFoundError"
    );
    assert_eq!(
        handle_get_command_error(ErrorCode::WalletIncompatiblePoolError),
        "Indy SDK error occurred WalletIncompatiblePoolError"
    );
    assert_eq!(
        handle_get_command_error(other("PoolLedgerTerminated")),
        "Indy SDK error occurred PoolLedgerTerminated"
    );
}

#[test]
fn get_and_send_errors_agree_off_the_wallet() {
    for err in [
        ErrorCode::CommonInvalidStructure,
        ErrorCode::LedgerInvalidTransaction,
        other("PoolLedgerTimeout"),
    ] {
        let e2 = match &err {
            ErrorCode::Other(n) => ErrorCode::Other(n.clone()),
            ErrorCode::CommonInvalidStructure => ErrorCode::CommonInvalidStructure,
            _ => ErrorCode::LedgerInvalidTransaction,
        };
        assert_eq!(handle_get_command_error(err), handle_send_command_error(e2, "d", 5, 6));
    }
}

#[test]
fn response_or_error() {
    assert_eq!(get_response(Ok("{}".to_string())), Ok("{}".to_string()));
    assert_eq!(
        get_response(Err(ErrorCode::LedgerInvalidTransaction)),
        Err("Invalid transaction".to_string())
    );
}

#[test]
fn group_metadata() {
    let g = Group::new();
    assert_eq!(g.metadata().name, "ledger");
    assert_eq!(g.metadata().help, "Ledger management commands");
}

#[test]
fn command_metadata() {
    let c = SendNymCommand::new();
    let m = c.metadata();
    assert_eq!(m.name, "send-nym");
    assert_eq!(m.help, "Add NYM to Ledger.");
    assert!(m.main_param.is_none());
    assert_eq!(
        names(m),
        vec![
            ("did".to_string(), false),
            ("verkey".to_string(), true),
            ("alias".to_string(), true),
            ("role".to_string(), true)
        ]
    );
    assert_eq!(m.params[3].help, "Role of new identity. One of: STEWARD, TRUSTEE, TRUST_ANCHOR, TGB");

    let m = GetClaimDefCommand::new();
    assert_eq!(m.metadata().name, "get-claim-def");
    assert_eq!(m.metadata().help, "Add claim definition to Ledger.");
    assert_eq!(names(m.metadata()).len(), 3);

    let c = SendNodeCommand::new();
    let m = c.metadata();
    assert_eq!(m.name, "send-node");
    assert_eq!(m.params.len(), 8);
    assert_eq!(m.params[7].name, "services");
    assert!(m.params[7].is_optional);
    assert!(!m.params[2].is_optional);

    let c = SenCustomCommand::new();
    let m = c.metadata();
    assert_eq!(m.name, "send-custom");
    let main = m.main_param.as_ref().unwrap();
    assert_eq!(main.name, "txn");
    assert_eq!(main.help, "Transaction json");
    assert!(!main.is_optional);
    assert_eq!(names(m), vec![("sign".to_string(), true)]);

    assert_eq!(GetNymCommand::new().metadata().name, "get-nym");
    assert_eq!(SendAttribCommand::new().metadata().params.len(), 4);
    assert_eq!(GetAttribCommand::new().metadata().params[1].name, "attr");
    assert_eq!(SendSchemaCommand::new().metadata().params[2].help, "Schema attributes split by comma");
    assert_eq!(GetSchemaCommand::new().metadata().params.len(), 3);
    assert_eq!(SendClaimDefCommand::new().metadata().params[3].name, "revocation");
}

#[test]
fn parameter_names_are_distinct() {
    let all = vec![
        SendNymCommand::new().metadata().params.iter().map(|p| p.name.clone()).collect::<Vec<_>>(),
        SendNodeCommand::new().metadata().params.iter().map(|p| p.name.clone()).collect::<Vec<_>>(),
        SendClaimDefCommand::new().metadata().params.iter().map(|p| p.name.clone()).collect::<Vec<_>>(),
    ];
    for names in all {
        for i in 0..names.len() {
            for j in i + 1..names.len() {
                assert_ne!(names[i], names[j]);
            }
        }
    }
}

#[test]
fn send_nym_report() {
    assert_eq!(
        SendNymCommand::report(Ok(()), "did2", Some("vk"), None, Some("TRUSTEE"), "did1", 1, 2),
        Ok("NYM {\"did\":\"did2\", \"verkey\":\"Some(\"vk\")\", \"alias\":\"None\", \"role\":\"Some(\"TRUSTEE\")\"} has been added to Ledger".to_string())
    );
    assert_eq!(
        SendNymCommand::report(Err(ErrorCode::WalletNotFoundError), "did2", None, None, None, "did1", 1, 2),
        Err("Submitter DID: \"did1\" not found".to_string())
    );
}

#[test]
fn get_nym_report() {
    let nym = NymData {
        identifier: Some("sub".to_string()),
        dest: "did2".to_string(),
        role: None,
        alias: Some("al".to_string()),
        verkey: None,
    };
    assert_eq!(
        nym.to_string(),
        "\nsubmitter:sub | did:did2 | role:null | alias:al | verkey:null"
    );
    assert_eq!(
        GetNymCommand::report(Some(&nym)),
        Ok("Following NYM has been received: \nsubmitter:sub | did:did2 | role:null | alias:al | verkey:null".to_string())
    );
    assert_eq!(GetNymCommand::report(None), Err("NYM not found".to_string()));
}

#[test]
fn attribute_preference() {
    assert_eq!(SendAttribCommand::attribute(Some("r"), Some("h"), Some("e")), "r");
    assert_eq!(SendAttribCommand::attribute(None, Some("h"), Some("e")), "h");
    assert_eq!(SendAttribCommand::attribute(None, None, Some("e")), "e");
    assert_eq!(SendAttribCommand::attribute(None, None, None), "");
}

#[test]
fn send_attrib_report() {
    assert_eq!(
        SendAttribCommand::report(Ok(()), None, Some("hash1"), Some("enc1"), "did1", 1, 2),
        Ok("Attribute \"hash1\" has been added to Ledger".to_string())
    );
    assert_eq!(
        SendAttribCommand::report(Err(ErrorCode::CommonInvalidStructure), Some("{}"), None, None, "did1", 1, 2),
        Err("Wrong command params".to_string())
    );
}

#[test]
fn get_attrib_report() {
    let with = AttribData { endpoint: Some(Endpoint { ha: "127.0.0.1:5555".to_string() }) };
    let without = AttribData { endpoint: None };
    assert_eq!(with.to_string(), "\nEndpoint { ha: \"127.0.0.1:5555\" }");
    assert_eq!(without.to_string(), "");
    assert_eq!(
        GetAttribCommand::report(Some(&with)),
        Ok("Following Attribute has been received: \nEndpoint { ha: \"127.0.0.1:5555\" }".to_string())
    );
    assert_eq!(
        GetAttribCommand::report(Some(&without)),
        Ok("Following Attribute has been received: ".to_string())
    );
    assert_eq!(GetAttribCommand::report(None), Err("Attribute not found".to_string()));
}

#[test]
fn schema_data_json() {
    assert_eq!(
        SendSchemaCommand::schema_data("gvt", "1.0", vec!["age", "sex"]),
        "{\"attr_names\":[\"age\",\"sex\"],\"name\":\"gvt\",\"version\":\"1.0\"}"
    );
    assert_eq!(
        SendSchemaCommand::schema_data("a\"b", "1", vec![]),
        "{\"attr_names\":[],\"name\":\"a\\\"b\",\"version\":\"1\"}"
    );
    assert_eq!(
        GetSchemaCommand::schema_data("gvt", "1.0"),
        "{\"name\":\"gvt\",\"version\":\"1.0\"}"
    );
}

#[test]
fn send_schema_report() {
    assert_eq!(
        SendSchemaCommand::report(Ok(()), "gvt", "1.0", "did1", 1, 2),
        Ok("Schema {name: \"gvt\" version: \"1.0\"}  has been added to Ledger".to_string())
    );
    assert_eq!(
        SendSchemaCommand::report(Err(ErrorCode::LedgerInvalidTransaction), "gvt", "1.0", "did1", 1, 2),
        Err("Invalid transaction".to_string())
    );
}

#[test]
fn get_schema_report() {
    let schema = SchemaData {
        attr_names: vec!["age".to_string(), "sex".to_string()],
        name: "gvt".to_string(),
        origin: None,
        version: "1.0".to_string(),
    };
    assert_eq!(
        schema.to_string(),
        "\nname:gvt | version:1.0 | attr_names:{\"age\", \"sex\"} | origin:null"
    );
    assert_eq!(
        GetSchemaCommand::report(Some(&schema)),
        Ok("Following Schema has been received: \"\nname:gvt | version:1.0 | attr_names:{\"age\", \"sex\"} | origin:null\"".to_string())
    );
    let empty = SchemaData {
        attr_names: vec![],
        name: "n".to_string(),
        origin: Some("did1".to_string()),
        version: "2".to_string(),
    };
    assert_eq!(empty.to_string(), "\nname:n | version:2 | attr_names:{} | origin:did1");
    assert_eq!(GetSchemaCommand::report(None), Err("Schema not found".to_string()));
}

#[test]
fn claim_def_data_json() {
    let primary: serde_json::Value = serde_json::from_str("{\"n\":\"1\",\"s\":\"2\"}").unwrap();
    assert_eq!(
        SendClaimDefCommand::claim_def_data(primary.clone(), Some("rev")),
        "{\"primary\":{\"n\":\"1\",\"s\":\"2\"},\"revocation\":\"rev\"}"
    );
    assert_eq!(
        SendClaimDefCommand::claim_def_data(primary, None),
        "{\"primary\":{\"n\":\"1\",\"s\":\"2\"}}"
    );
}

#[test]
fn send_claim_def_report() {
    assert_eq!(
        SendClaimDefCommand::report(Ok(()), "did1", 15, "CL", 1, 2),
        Ok("Claim def {\"origin\":\"did1\", \"schema_seq_no\":15, \"signature_type\":CL} has been added to Ledger".to_string())
    );
    assert_eq!(
        SendClaimDefCommand::report(Err(ErrorCode::WalletIncompatiblePoolError), "did1", 15, "CL", 3, 4),
        Err("Pool handle \"3\" invalid for wallet handle \"4\"".to_string())
    );
}

#[test]
fn get_claim_def_report() {
    let claim_def = ClaimDefData {
        primary: serde_json::from_str("{\"n\":\"1\"}").unwrap(),
        revocation: None,
    };
    assert_eq!(
        claim_def.debug_string(),
        "ClaimDefData { primary: Object {\"n\": String(\"1\")}, revocation: None }"
    );
    assert_eq!(
        GetClaimDefCommand::report(Some(&claim_def)),
        Ok("Following ClaimDef has been received: \"ClaimDefData { primary: Object {\"n\": String(\"1\")}, revocation: None }\"".to_string())
    );
    let with_revocation = ClaimDefData {
        primary: serde_json::from_str("{}").unwrap(),
        revocation: Some(serde_json::from_str("7").unwrap()),
    };
    assert_eq!(
        with_revocation.debug_string(),
        "ClaimDefData { primary: Object {}, revocation: Some(Number(7)) }"
    );
    assert_eq!(GetClaimDefCommand::report(None), Err("Claim definition not found".to_string()));
}

#[test]
fn node_data_json() {
    assert_eq!(
        SendNodeCommand::node_data(
            Some("10.0.0.2"),
            Some(9701),
            Some("10.0.0.3"),
            Some(9702),
            Some("Node5"),
            Some("key"),
            Some(vec!["VALIDATOR"])
        ),
        "{\"alias\":\"Node5\",\"blskey\":\"key\",\"client_ip\":\"10.0.0.3\",\"client_port\":9702,\"node_ip\":\"10.0.0.2\",\"node_port\":9701,\"services\":[\"VALIDATOR\"]}"
    );
    assert_eq!(SendNodeCommand::node_data(None, None, None, None, None, None, None), "{}");
    assert_eq!(
        SendNodeCommand::node_data(None, Some(-1), None, None, Some("N"), None, Some(vec![])),
        "{\"alias\":\"N\",\"node_port\":-1,\"services\":[]}"
    );
}

#[test]
fn send_node_report() {
    assert_eq!(
        SendNodeCommand::report(Ok(()), "{}", "did1", 1, 2),
        Ok("Node \"{}\" has been added to Ledger".to_string())
    );
    assert_eq!(
        SendNodeCommand::report(Err(other("CommonInvalidParam3")), "{}", "did1", 1, 2),
        Err("Indy SDK error occurred CommonInvalidParam3".to_string())
    );
}

#[test]
fn custom_signing() {
    assert!(SenCustomCommand::is_signed(Some(true)));
    assert!(!SenCustomCommand::is_signed(Some(false)));
    assert!(!SenCustomCommand::is_signed(None));
}

#[test]
fn custom_report() {
    assert_eq!(
        SenCustomCommand::report(Ok(()), "{}"),
        Ok("Transaction has been sent to Ledger".to_string())
    );
    assert_eq!(
        SenCustomCommand::report(Err(ErrorCode::LedgerInvalidTransaction), "{\"a\":1}"),
        Err("Invalid transaction \"{\"a\":1}\"".to_string())
    );
    assert_eq!(
        SenCustomCommand::report(Err(ErrorCode::WalletNotFoundError), "{}"),
        Err("There is no active did".to_string())
    );
    assert_eq!(
        SenCustomCommand::report(Err(ErrorCode::CommonInvalidStructure), "{}"),
        Err("Indy SDK error occurred CommonInvalidStructure".to_string())
    );
}
