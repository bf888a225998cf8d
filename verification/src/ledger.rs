//! The ledger commands of the command line: the metadata of each command,
//! the data that the sending commands put on the ledger, and the report
//! that each command prints of the ledger's answer.
use vstd::prelude::*;
use crate::data::{AttribData, ClaimDefData, NymData, SchemaData};
use crate::error::{
    error_code_name, get_error_message, handle_get_command_error, handle_send_command_error, sdk_error,
    sdk_error_message, send_error_message, ErrorCode,
};
use crate::json::{
    json_from_i32, json_from_map, json_from_str, json_from_strs, json_map_insert, json_map_new,
    json_text, json_to_string, json_value_model, no_entries, str_array_model, JsonModel,
};
use crate::metadata::{param_view, CommandMetadata, CommandView, GroupMetadata, GroupView, ParamView};
use crate::text::{
    append_i32, debug_option_str, int_decimal, lemma_int_decimal_injective, lemma_middle_determined,
    opt_str_view,
    option_str_debug, str_debug,
};

verus! {

/// What a command prints when it is done: `Ok` holds a success message,
/// `Err` an error message.
pub type Report = Result<String, String>;

/// The text of a report.
pub open spec fn report_view(r: Report) -> Result<Seq<char>, Seq<char>> {
    match r {
        Ok(m) => Ok(m@),
        Err(m) => Err(m@),
    }
}

/// The report of a command that sent a transaction: its success message
/// when the ledger accepted the transaction, else the message of the error.
pub open spec fn send_report(
    res: Result<(), ErrorCode>,
    success: Seq<char>,
    submitter_did: Seq<char>,
    pool_handle: int,
    wallet_handle: int,
) -> Result<Seq<char>, Seq<char>> {
    match res {
        Ok(_) => Ok(success),
        Err(e) => Err(send_error_message(e, submitter_did, pool_handle, wallet_handle)),
    }
}

/// A command that sends a transaction reports success exactly when the
/// ledger accepted it, and otherwise reports the error by which the ledger
/// refused it.
pub proof fn lemma_send_report_success_iff_accepted(
    res: Result<(), ErrorCode>,
    success: Seq<char>,
    submitter_did: Seq<char>,
    pool_handle: int,
    wallet_handle: int,
)
    ensures
        send_report(res, success, submitter_did, pool_handle, wallet_handle) is Ok <==> res is Ok,
        res matches Err(e) ==> send_report(res, success, submitter_did, pool_handle, wallet_handle)
            == Err::<Seq<char>, Seq<char>>(send_error_message(e, submitter_did, pool_handle, wallet_handle)),
{
}

fn report_sent(
    res: Result<(), ErrorCode>,
    success: String,
    submitter_did: &str,
    pool_handle: i32,
    wallet_handle: i32,
) -> (r: Report)
    ensures
        report_view(r) == send_report(
            res,
            success@,
            submitter_did@,
            pool_handle as int,
            wallet_handle as int,
        ),
{
    match res {
        Ok(_) => Ok(success),
        Err(e) => Err(handle_send_command_error(e, submitter_did, pool_handle, wallet_handle)),
    }
}

/// What a reading command goes on with: the ledger's response when its
/// request went through, else the message of the error.
pub open spec fn response_view(res: Result<String, ErrorCode>) -> Result<Seq<char>, Seq<char>> {
    match res {
        Ok(response) => Ok(response@),
        Err(e) => Err(get_error_message(e)),
    }
}

/// The ledger's response to a reading command, or the error message that
/// the command prints before it fails.
pub fn get_response(res: Result<String, ErrorCode>) -> (r: Result<String, String>)
    ensures
        report_view(r) == response_view(res),
{
    match res {
        Ok(response) => Ok(response),
        Err(err) => Err(handle_get_command_error(err)),
    }
}

/// The group of ledger commands.
pub struct Group {
    metadata: GroupMetadata,
}

impl View for Group {
    type V = GroupView;

    closed spec fn view(&self) -> GroupView {
        self.metadata@
    }
}

impl Group {
    pub fn new() -> (g: Group)
        ensures
            g@ == (GroupView { name: "ledger"@, help: "Ledger management commands"@ }),
    {
        Group { metadata: GroupMetadata::new("ledger", "Ledger management commands") }
    }

    pub fn metadata(&self) -> (m: &GroupMetadata)
        ensures
            m@ == self@,
    {
        &self.metadata
    }
}

/// The metadata of `send-nym`.
pub open spec fn send_nym_metadata() -> CommandView {
    CommandView {
        name: "send-nym"@,
        help: "Add NYM to Ledger."@,
        main_param: None,
        params: seq![
            param_view("did"@, false, "DID of new identity"@),
            param_view("verkey"@, true, "Verification key of new identity"@),
            param_view("alias"@, true, "Alias of new identity"@),
            param_view("role"@, true, "Role of new identity. One of: STEWARD, TRUSTEE, TRUST_ANCHOR, TGB"@),
        ],
    }
}

/// The command `send-nym`.
pub struct SendNymCommand {
    metadata: CommandMetadata,
}

impl View for SendNymCommand {
    type V = CommandView;

    closed spec fn view(&self) -> CommandView {
        self.metadata@
    }
}

impl SendNymCommand {
    pub fn new() -> (c: SendNymCommand)
        ensures
            c@ == send_nym_metadata(),
    {
        let metadata = CommandMetadata::build("send-nym", "Add NYM to Ledger.")
            .add_param("did", false, "DID of new identity")
            .add_param("verkey", true, "Verification key of new identity")
            .add_param("alias", true, "Alias of new identity")
            .add_param("role", true, "Role of new identity. One of: STEWARD, TRUSTEE, TRUST_ANCHOR, TGB")
            .finalize();
        proof {
            assert(metadata@.params =~= send_nym_metadata().params);
        }
        SendNymCommand { metadata }
    }

    pub fn metadata(&self) -> (m: &CommandMetadata)
        ensures
            m@ == self@,
    {
        &self.metadata
    }
}

/// The metadata of `get-nym`.
pub open spec fn get_nym_metadata() -> CommandView {
    CommandView {
        name: "get-nym"@,
        help: "Get NYM from Ledger."@,
        main_param: None,
        params: seq![
            param_view("did"@, false, "DID of identity presented in Ledger"@),
        ],
    }
}

/// The command `get-nym`.
pub struct GetNymCommand {
    metadata: CommandMetadata,
}

impl View for GetNymCommand {
    type V = CommandView;

    closed spec fn view(&self) -> CommandView {
        self.metadata@
    }
}

impl GetNymCommand {
    pub fn new() -> (c: GetNymCommand)
        ensures
            c@ == get_nym_metadata(),
    {
        let metadata = CommandMetadata::build("get-nym", "Get NYM from Ledger.")
            .add_param("did", false, "DID of identity presented in Ledger")
            .finalize();
        proof {
            assert(metadata@.params =~= get_nym_metadata().params);
        }
        GetNymCommand { metadata }
    }

    pub fn metadata(&self) -> (m: &CommandMetadata)
        ensures
            m@ == self@,
    {
        &self.metadata
    }
}

/// The metadata of `send-attrib`.
pub open spec fn send_attrib_metadata() -> CommandView {
    CommandView {
        name: "send-attrib"@,
        help: "Add Attribute to exists NYM."@,
        main_param: None,
        params: seq![
            param_view("did"@, false, "DID of identity presented in Ledger"@),
            param_view("hash"@, true, "Hash of attribute data"@),
            param_view("raw"@, true, "JSON representation of attribute data"@),
            param_view("enc"@, true, "Encrypted attribute data"@),
        ],
    }
}

/// The command `send-attrib`.
pub struct SendAttribCommand {
    metadata: CommandMetadata,
}

impl View for SendAttribCommand {
    type V = CommandView;

    closed spec fn view(&self) -> CommandView {
        self.metadata@
    }
}

impl SendAttribCommand {
    pub fn new() -> (c: SendAttribCommand)
        ensures
            c@ == send_attrib_metadata(),
    {
        let metadata = CommandMetadata::build("send-attrib", "Add Attribute to exists NYM.")
            .add_param("did", false, "DID of identity presented in Ledger")
            .add_param("hash", true, "Hash of attribute data")
            .add_param("raw", true, "JSON representation of attribute data")
            .add_param("enc", true, "Encrypted attribute data")
            .finalize();
        proof {
            assert(metadata@.params =~= send_attrib_metadata().params);
        }
        SendAttribCommand { metadata }
    }

    pub fn metadata(&self) -> (m: &CommandMetadata)
        ensures
            m@ == self@,
    {
        &self.metadata
    }
}

/// The metadata of `get-attrib`.
pub open spec fn get_attrib_metadata() -> CommandView {
    CommandView {
        name: "get-attrib"@,
        help: "Get ATTRIB from Ledger."@,
        main_param: None,
        params: seq![
            param_view("did"@, false, "DID of identity presented in Ledger"@),
            param_view("attr"@, false, "Name of attribute"@),
        ],
    }
}

/// The command `get-attrib`.
pub struct GetAttribCommand {
    metadata: CommandMetadata,
}

impl View for GetAttribCommand {
    type V = CommandView;

    closed spec fn view(&self) -> CommandView {
        self.metadata@
    }
}

impl GetAttribCommand {
    pub fn new() -> (c: GetAttribCommand)
        ensures
            c@ == get_attrib_metadata(),
    {
        let metadata = CommandMetadata::build("get-attrib", "Get ATTRIB from Ledger.")
            .add_param("did", false, "DID of identity presented in Ledger")
            .add_param("attr", false, "Name of attribute")
            .finalize();
        proof {
            assert(metadata@.params =~= get_attrib_metadata().params);
        }
        GetAttribCommand { metadata }
    }

    pub fn metadata(&self) -> (m: &CommandMetadata)
        ensures
            m@ == self@,
    {
        &self.metadata
    }
}

/// The metadata of `send-schema`.
pub open spec fn send_schema_metadata() -> CommandView {
    CommandView {
        name: "send-schema"@,
        help: "Add Schema to Ledger."@,
        main_param: None,
        params: seq![
            param_view("name"@, false, "Schema name"@),
            param_view("version"@, false, "Schema version"@),
            param_view("attr_names"@, false, "Schema attributes split by comma"@),
        ],
    }
}

/// The command `send-schema`.
pub struct SendSchemaCommand {
    metadata: CommandMetadata,
}

impl View for SendSchemaCommand {
    type V = CommandView;

    closed spec fn view(&self) -> CommandView {
        self.metadata@
    }
}

impl SendSchemaCommand {
    pub fn new() -> (c: SendSchemaCommand)
        ensures
            c@ == send_schema_metadata(),
    {
        let metadata = CommandMetadata::build("send-schema", "Add Schema to Ledger.")
            .add_param("name", false, "Schema name")
            .add_param("version", false, "Schema version")
            .add_param("attr_names", false, "Schema attributes split by comma")
            .finalize();
        proof {
            assert(metadata@.params =~= send_schema_metadata().params);
        }
        SendSchemaCommand { metadata }
    }

    pub fn metadata(&self) -> (m: &CommandMetadata)
        ensures
            m@ == self@,
    {
        &self.metadata
    }
}

/// The metadata of `get-schema`.
pub open spec fn get_schema_metadata() -> CommandView {
    CommandView {
        name: "get-schema"@,
        help: "Get Schema from Ledger."@,
        main_param: None,
        params: seq![
            param_view("did"@, false, "DID of identity presented in Ledger"@),
            param_view("name"@, false, "Schema name"@),
            param_view("version"@, false, "Schema version"@),
        ],
    }
}

/// The command `get-schema`.
pub struct GetSchemaCommand {
    metadata: CommandMetadata,
}

impl View for GetSchemaCommand {
    type V = CommandView;

    closed spec fn view(&self) -> CommandView {
        self.metadata@
    }
}

impl GetSchemaCommand {
    pub fn new() -> (c: GetSchemaCommand)
        ensures
            c@ == get_schema_metadata(),
    {
        let metadata = CommandMetadata::build("get-schema", "Get Schema from Ledger.")
            .add_param("did", false, "DID of identity presented in Ledger")
            .add_param("name", false, "Schema name")
            .add_param("version", false, "Schema version")
            .finalize();
        proof {
            assert(metadata@.params =~= get_schema_metadata().params);
        }
        GetSchemaCommand { metadata }
    }

    pub fn metadata(&self) -> (m: &CommandMetadata)
        ensures
            m@ == self@,
    {
        &self.metadata
    }
}

/// The metadata of `send-claim-def`.
pub open spec fn send_claim_def_metadata() -> CommandView {
    CommandView {
        name: "send-claim-def"@,
        help: "Add claim definition to Ledger."@,
        main_param: None,
        params: seq![
            param_view("schema_no"@, false, "Sequence number of schema"@),
            param_view("signature_type"@, false, "Signature type (only CL supported now)"@),
            param_view("primary"@, false, "Primary key in json format"@),
            param_view("revocation"@, true, "Revocation key in json format"@),
        ],
    }
}

/// The command `send-claim-def`.
pub struct SendClaimDefCommand {
    metadata: CommandMetadata,
}

impl View for SendClaimDefCommand {
    type V = CommandView;

    closed spec fn view(&self) -> CommandView {
        self.metadata@
    }
}

impl SendClaimDefCommand {
    pub fn new() -> (c: SendClaimDefCommand)
        ensures
            c@ == send_claim_def_metadata(),
    {
        let metadata = CommandMetadata::build("send-claim-def", "Add claim definition to Ledger.")
            .add_param("schema_no", false, "Sequence number of schema")
            .add_param("signature_type", false, "Signature type (only CL supported now)")
            .add_param("primary", false, "Primary key in json format")
            .add_param("revocation", true, "Revocation key in json format")
            .finalize();
        proof {
            assert(metadata@.params =~= send_claim_def_metadata().params);
        }
        SendClaimDefCommand { metadata }
    }

    pub fn metadata(&self) -> (m: &CommandMetadata)
        ensures
            m@ == self@,
    {
        &self.metadata
    }
}

/// The metadata of `get-claim-def`.
pub open spec fn get_claim_def_metadata() -> CommandView {
    CommandView {
        name: "get-claim-def"@,
        help: "Add claim definition to Ledger."@,
        main_param: None,
        params: seq![
            param_view("schema_no"@, false, "Sequence number of schema"@),
            param_view("signature_type"@, false, "Signature type (only CL supported now)"@),
            param_view("origin"@, false, "Claim definition owner DID"@),
        ],
    }
}

/// The command `get-claim-def`.
pub struct GetClaimDefCommand {
    metadata: CommandMetadata,
}

impl View for GetClaimDefCommand {
    type V = CommandView;

    closed spec fn view(&self) -> CommandView {
        self.metadata@
    }
}

impl GetClaimDefCommand {
    pub fn new() -> (c: GetClaimDefCommand)
        ensures
            c@ == get_claim_def_metadata(),
    {
        let metadata = CommandMetadata::build("get-claim-def", "Add claim definition to Ledger.")
            .add_param("schema_no", false, "Sequence number of schema")
            .add_param("signature_type", false, "Signature type (only CL supported now)")
            .add_param("origin", false, "Claim definition owner DID")
            .finalize();
        proof {
            assert(metadata@.params =~= get_claim_def_metadata().params);
        }
        GetClaimDefCommand { metadata }
    }

    pub fn metadata(&self) -> (m: &CommandMetadata)
        ensures
            m@ == self@,
    {
        &self.metadata
    }
}

/// The metadata of `send-node`.
pub open spec fn send_node_metadata() -> CommandView {
    CommandView {
        name: "send-node"@,
        help: "Add Node to Ledger."@,
        main_param: None,
        params: seq![
            param_view("target"@, false, "DID of new identity"@),
            param_view("node_ip"@, false, "Node Ip"@),
            param_view("node_port"@, false, "Node port"@),
            param_view("client_ip"@, false, "Client Ip"@),
            param_view("client_port"@, false, "Client port"@),
            param_view("alias"@, false, "Node alias"@),
            param_view("blskey"@, false, "Node BLS key"@),
            param_view("services"@, true, "Node type [VALIDATOR, OBSERVER]"@),
        ],
    }
}

/// The command `send-node`.
pub struct SendNodeCommand {
    metadata: CommandMetadata,
}

impl View for SendNodeCommand {
    type V = CommandView;

    closed spec fn view(&self) -> CommandView {
        self.metadata@
    }
}

impl SendNodeCommand {
    pub fn new() -> (c: SendNodeCommand)
        ensures
            c@ == send_node_metadata(),
    {
        let metadata = CommandMetadata::build("send-node", "Add Node to Ledger.")
            .add_param("target", false, "DID of new identity")
            .add_param("node_ip", false, "Node Ip")
            .add_param("node_port", false, "Node port")
            .add_param("client_ip", false, "Client Ip")
            .add_param("client_port", false, "Client port")
            .add_param("alias", false, "Node alias")
            .add_param("blskey", false, "Node BLS key")
            .add_param("services", true, "Node type [VALIDATOR, OBSERVER]")
            .finalize();
        proof {
            assert(metadata@.params =~= send_node_metadata().params);
        }
        SendNodeCommand { metadata }
    }

    pub fn metadata(&self) -> (m: &CommandMetadata)
        ensures
            m@ == self@,
    {
        &self.metadata
    }
}

/// The metadata of `send-custom`.
pub open spec fn send_custom_metadata() -> CommandView {
    CommandView {
        name: "send-custom"@,
        help: "Add NYM to Ledger."@,
        main_param: Some(param_view("txn"@, false, "Transaction json"@)),
        params: seq![
            param_view("sign"@, true, "Is signature required"@),
        ],
    }
}

/// The command `send-custom`.
pub struct SenCustomCommand {
    metadata: CommandMetadata,
}

impl View for SenCustomCommand {
    type V = CommandView;

    closed spec fn view(&self) -> CommandView {
        self.metadata@
    }
}

impl SenCustomCommand {
    pub fn new() -> (c: SenCustomCommand)
        ensures
            c@ == send_custom_metadata(),
    {
        let metadata = CommandMetadata::build("send-custom", "Add NYM to Ledger.")
            .add_main_param("txn", "Transaction json")
            .add_param("sign", true, "Is signature required")
            .finalize();
        proof {
            assert(metadata@.params =~= send_custom_metadata().params);
        }
        SenCustomCommand { metadata }
    }

    pub fn metadata(&self) -> (m: &CommandMetadata)
        ensures
            m@ == self@,
    {
        &self.metadata
    }
}

/// The message of `send-nym` once the NYM is on the ledger.
pub open spec fn send_nym_success(
    target_did: Seq<char>,
    verkey: Option<Seq<char>>,
    alias: Option<Seq<char>>,
    role: Option<Seq<char>>,
) -> Seq<char> {
    "NYM {\"did\":\""@ + target_did + "\", \"verkey\":\""@ + option_str_debug(verkey)
        + "\", \"alias\":\""@ + option_str_debug(alias) + "\", \"role\":\""@ + option_str_debug(
        role,
    ) + "\"} has been added to Ledger"@
}

impl SendNymCommand {
    /// The report of `send-nym` on the ledger's answer `res` to the NYM
    /// transaction.
    pub fn report(
        res: Result<(), ErrorCode>,
        target_did: &str,
        verkey: Option<&str>,
        alias: Option<&str>,
        role: Option<&str>,
        submitter_did: &str,
        pool_handle: i32,
        wallet_handle: i32,
    ) -> (r: Report)
        ensures
            report_view(r) == send_report(
                res,
                send_nym_success(
                    target_did@,
                    opt_str_view(verkey),
                    opt_str_view(alias),
                    opt_str_view(role),
                ),
                submitter_did@,
                pool_handle as int,
                wallet_handle as int,
            ),
    {
        let mut m = String::from_str("NYM {\"did\":\"");
        m.append(target_did);
        m.append("\", \"verkey\":\"");
        let v = debug_option_str(verkey);
        m.append(v.as_str());
        m.append("\", \"alias\":\"");
        let a = debug_option_str(alias);
        m.append(a.as_str());
        m.append("\", \"role\":\"");
        let r = debug_option_str(role);
        m.append(r.as_str());
        m.append("\"} has been added to Ledger");
        report_sent(res, m, submitter_did, pool_handle, wallet_handle)
    }
}

/// The report of `get-nym` on the NYM read from the ledger's reply, if
/// the reply held one.
pub open spec fn get_nym_report(nym: Option<&NymData>) -> Result<Seq<char>, Seq<char>> {
    match nym {
        Some(n) => Ok("Following NYM has been received: "@ + n.text()),
        None => Err("NYM not found"@),
    }
}

impl GetNymCommand {
    /// The report of `get-nym`: the NYM that the ledger's reply held, or
    /// that none was found.
    pub fn report(nym: Option<&NymData>) -> (r: Report)
        ensures
            report_view(r) == get_nym_report(nym),
    {
        match nym {
            Some(n) => {
                let mut m = String::from_str("Following NYM has been received: ");
                let t = n.to_string();
                m.append(t.as_str());
                Ok(m)
            },
            None => Err(String::from_str("NYM not found")),
        }
    }
}

/// The attribute that `send-attrib` reports: the raw one if given, else the
/// hash, else the encrypted one, else nothing.
pub open spec fn attribute_value(
    raw: Option<Seq<char>>,
    hash: Option<Seq<char>>,
    enc: Option<Seq<char>>,
) -> Seq<char> {
    match raw {
        Some(r) => r,
        None => match hash {
            Some(h) => h,
            None => match enc {
                Some(e) => e,
                None => seq![],
            },
        },
    }
}

/// The message of `send-attrib` once the attribute is on the ledger.
pub open spec fn send_attrib_success(attribute: Seq<char>) -> Seq<char> {
    "Attribute \""@ + attribute + "\" has been added to Ledger"@
}

impl SendAttribCommand {
    /// The attribute that the command reports of `raw`, `hash` and `enc`.
    pub fn attribute<'a>(raw: Option<&'a str>, hash: Option<&'a str>, enc: Option<&'a str>) -> (a:
        &'a str)
        ensures
            a@ == attribute_value(opt_str_view(raw), opt_str_view(hash), opt_str_view(enc)),
    {
        proof {
            reveal_strlit("");
        }
        match raw {
            Some(r) => r,
            None => match hash {
                Some(h) => h,
                None => match enc {
                    Some(e) => e,
                    None => "",
                },
            },
        }
    }

    /// The report of `send-attrib` on the ledger's answer `res` to the
    /// attribute transaction.
    pub fn report(
        res: Result<(), ErrorCode>,
        raw: Option<&str>,
        hash: Option<&str>,
        enc: Option<&str>,
        submitter_did: &str,
        pool_handle: i32,
        wallet_handle: i32,
    ) -> (r: Report)
        ensures
            report_view(r) == send_report(
                res,
                send_attrib_success(
                    attribute_value(opt_str_view(raw), opt_str_view(hash), opt_str_view(enc)),
                ),
                submitter_did@,
                pool_handle as int,
                wallet_handle as int,
            ),
    {
        let mut m = String::from_str("Attribute \"");
        m.append(Self::attribute(raw, hash, enc));
        m.append("\" has been added to Ledger");
        report_sent(res, m, submitter_did, pool_handle, wallet_handle)
    }
}

/// The attribute that `send-attrib` reports is the raw one whenever it is
/// given, whatever the hash and the encrypted one are; else the hash when
/// it is given; else the encrypted one when it is given; else nothing.
pub proof fn lemma_attribute_preference(
    raw: Option<Seq<char>>,
    hash: Option<Seq<char>>,
    enc: Option<Seq<char>>,
)
    ensures
        raw matches Some(r) ==> attribute_value(raw, hash, enc) == r,
        raw is None ==> (hash matches Some(h) ==> attribute_value(raw, hash, enc) == h),
        raw is None && hash is None ==> (enc matches Some(e) ==> attribute_value(raw, hash, enc)
            == e),
        raw is None && hash is None && enc is None ==> attribute_value(raw, hash, enc).len() == 0,
        send_attrib_success(attribute_value(raw, hash, enc)) == "Attribute \""@ + attribute_value(
            raw,
            hash,
            enc,
        ) + "\" has been added to Ledger"@,
{
}

/// The schema data holds exactly three entries: the name and the version
/// as JSON strings, and under `attr_names` a JSON array with every given
/// attribute name, in order, as a JSON string.
pub proof fn lemma_schema_entries_hold_all_names(
    name: Seq<char>,
    version: Seq<char>,
    attr_names: Seq<&str>,
)
    ensures
        ({
            let m = schema_entries(name, version, str_array_model(attr_names));
            &&& m.dom() =~= set!["name"@, "version"@, "attr_names"@]
            &&& m["name"@] == JsonModel::Str(name)
            &&& m["version"@] == JsonModel::Str(version)
            &&& m["attr_names"@] is Array
            &&& m["attr_names"@]->Array_0.len() == attr_names.len()
            &&& forall|i: int|
                0 <= i < attr_names.len() ==> #[trigger] m["attr_names"@]->Array_0[i]
                    == JsonModel::Str(attr_names[i]@)
        }),
{
    reveal_strlit("name");
    reveal_strlit("version");
    reveal_strlit("attr_names");
    assert("name"@.len() != "version"@.len());
    assert("name"@.len() != "attr_names"@.len());
    assert("version"@.len() != "attr_names"@.len());
}

/// The `{:?}` text that `send-nym` shows of an optional value.
pub open spec fn shown_option(o: Option<Seq<char>>) -> Seq<char> {
    match o {
        Some(v) => "Some("@ + str_debug(v) + ")"@,
        None => "None"@,
    }
}

/// The message of `send-nym` shows the target DID, then the `{:?}` text of
/// the verification key, of the alias and of the role that were given, each
/// after its own label.
pub proof fn lemma_send_nym_success_fields(
    target_did: Seq<char>,
    verkey: Option<Seq<char>>,
    alias: Option<Seq<char>>,
    role: Option<Seq<char>>,
)
    ensures
        send_nym_success(target_did, verkey, alias, role) == "NYM {\"did\":\""@ + target_did
            + "\", \"verkey\":\""@ + shown_option(verkey) + "\", \"alias\":\""@ + shown_option(
            alias,
        ) + "\", \"role\":\""@ + shown_option(role) + "\"} has been added to Ledger"@,
{
}

/// Two `send-nym` messages that differ only in the alias given are the
/// same exactly when the aliases have the same `{:?}` text: the alias slot
/// shows the alias that was given.
pub proof fn lemma_send_nym_shows_alias(
    target_did: Seq<char>,
    verkey: Option<Seq<char>>,
    a1: Seq<char>,
    a2: Seq<char>,
    role: Option<Seq<char>>,
)
    ensures
        send_nym_success(target_did, verkey, Some(a1), role) == send_nym_success(
            target_did,
            verkey,
            Some(a2),
            role,
        ) <==> str_debug(a1) == str_debug(a2),
        send_nym_success(target_did, verkey, Some(a1), role) != send_nym_success(
            target_did,
            verkey,
            None,
            role,
        ),
{
    let pre = "NYM {\"did\":\""@ + target_did + "\", \"verkey\":\""@ + shown_option(verkey)
        + "\", \"alias\":\""@;
    let post = "\", \"role\":\""@ + shown_option(role) + "\"} has been added to Ledger"@;
    let x1 = "Some("@ + str_debug(a1) + ")"@;
    let x2 = "Some("@ + str_debug(a2) + ")"@;
    let xn = "None"@;
    assert(send_nym_success(target_did, verkey, Some(a1), role) =~= pre + x1 + post);
    assert(send_nym_success(target_did, verkey, Some(a2), role) =~= pre + x2 + post);
    assert(send_nym_success(target_did, verkey, None, role) =~= pre + xn + post);
    if send_nym_success(target_did, verkey, Some(a1), role) == send_nym_success(
        target_did,
        verkey,
        Some(a2),
        role,
    ) {
        lemma_middle_determined(pre, x1, x2, post);
        lemma_middle_determined("Some("@, str_debug(a1), str_debug(a2), ")"@);
    }
    if send_nym_success(target_did, verkey, Some(a1), role) == send_nym_success(
        target_did,
        verkey,
        None,
        role,
    ) {
        lemma_middle_determined(pre, x1, xn, post);
        reveal_strlit("None");
        reveal_strlit("Some(");
        assert(x1[0] == 'S');
        assert(xn[0] == 'N');
    }
}

/// The report of `get-attrib` on the attribute read from the ledger's
/// reply, if the reply held one.
pub open spec fn get_attrib_report(attrib: Option<&AttribData>) -> Result<Seq<char>, Seq<char>> {
    match attrib {
        Some(a) => Ok("Following Attribute has been received: "@ + a.text()),
        None => Err("Attribute not found"@),
    }
}

impl GetAttribCommand {
    /// The report of `get-attrib`: the attribute that the ledger's reply
    /// held, or that none was found.
    pub fn report(attrib: Option<&AttribData>) -> (r: Report)
        ensures
            report_view(r) == get_attrib_report(attrib),
    {
        match attrib {
            Some(a) => {
                let mut m = String::from_str("Following Attribute has been received: ");
                let t = a.to_string();
                m.append(t.as_str());
                Ok(m)
            },
            None => Err(String::from_str("Attribute not found")),
        }
    }
}

/// The entries of the schema data that `send-schema` puts on the ledger.
pub open spec fn schema_entries(
    name: Seq<char>,
    version: Seq<char>,
    attr_names: Seq<JsonModel>,
) -> Map<Seq<char>, JsonModel> {
    no_entries().insert("name"@, JsonModel::Str(name)).insert(
        "version"@,
        JsonModel::Str(version),
    ).insert("attr_names"@, JsonModel::Array(attr_names))
}

/// The message of `send-schema` once the schema is on the ledger.
pub open spec fn send_schema_success(name: Seq<char>, version: Seq<char>) -> Seq<char> {
    "Schema {name: \""@ + name + "\" version: \""@ + version + "\"}  has been added to Ledger"@
}

impl SendSchemaCommand {
    /// The JSON text of the schema data: the object of the name, the version
    /// and the array of the attribute names.
    pub fn schema_data(name: &str, version: &str, attr_names: Vec<&str>) -> (data: String)
        ensures
            data@ == json_text(
                JsonModel::Object(schema_entries(name@, version@, str_array_model(attr_names@))),
            ),
    {
        let mut json = json_map_new();
        json_map_insert(&mut json, String::from_str("name"), json_from_str(name));
        json_map_insert(&mut json, String::from_str("version"), json_from_str(version));
        json_map_insert(&mut json, String::from_str("attr_names"), json_from_strs(attr_names));
        json_to_string(&json_from_map(json))
    }

    /// The report of `send-schema` on the ledger's answer `res` to the
    /// schema transaction.
    pub fn report(
        res: Result<(), ErrorCode>,
        name: &str,
        version: &str,
        submitter_did: &str,
        pool_handle: i32,
        wallet_handle: i32,
    ) -> (r: Report)
        ensures
            report_view(r) == send_report(
                res,
                send_schema_success(name@, version@),
                submitter_did@,
                pool_handle as int,
                wallet_handle as int,
            ),
    {
        let mut m = String::from_str("Schema {name: \"");
        m.append(name);
        m.append("\" version: \"");
        m.append(version);
        m.append("\"}  has been added to Ledger");
        report_sent(res, m, submitter_did, pool_handle, wallet_handle)
    }
}

/// The entries of the data by which `get-schema` names the schema it reads.
pub open spec fn get_schema_entries(name: Seq<char>, version: Seq<char>) -> Map<
    Seq<char>,
    JsonModel,
> {
    no_entries().insert("name"@, JsonModel::Str(name)).insert("version"@, JsonModel::Str(version))
}

/// The report of `get-schema` on the schema read from the ledger's reply,
/// if the reply held one.
pub open spec fn get_schema_report(schema: Option<&SchemaData>) -> Result<Seq<char>, Seq<char>> {
    match schema {
        Some(s) => Ok("Following Schema has been received: \""@ + s.text() + "\""@),
        None => Err("Schema not found"@),
    }
}

impl GetSchemaCommand {
    /// The JSON text that names the schema to read: the object of its name
    /// and version.
    pub fn schema_data(name: &str, version: &str) -> (data: String)
        ensures
            data@ == json_text(JsonModel::Object(get_schema_entries(name@, version@))),
    {
        let mut json = json_map_new();
        json_map_insert(&mut json, String::from_str("name"), json_from_str(name));
        json_map_insert(&mut json, String::from_str("version"), json_from_str(version));
        json_to_string(&json_from_map(json))
    }

    /// The report of `get-schema`: the schema that the ledger's reply held,
    /// or that none was found.
    pub fn report(schema: Option<&SchemaData>) -> (r: Report)
        ensures
            report_view(r) == get_schema_report(schema),
    {
        match schema {
            Some(s) => {
                let mut m = String::from_str("Following Schema has been received: \"");
                let t = s.to_string();
                m.append(t.as_str());
                m.append("\"");
                Ok(m)
            },
            None => Err(String::from_str("Schema not found")),
        }
    }
}

/// The entries of the claim definition data that `send-claim-def` puts on
/// the ledger: the primary key, and the revocation key when one is given.
pub open spec fn claim_def_entries(primary: JsonModel, revocation: Option<Seq<char>>) -> Map<
    Seq<char>,
    JsonModel,
> {
    let m = no_entries().insert("primary"@, primary);
    match revocation {
        Some(r) => m.insert("revocation"@, JsonModel::Str(r)),
        None => m,
    }
}

/// The message of `send-claim-def` once the claim definition is on the
/// ledger.
pub open spec fn send_claim_def_success(
    submitter_did: Seq<char>,
    xref: int,
    signature_type: Seq<char>,
) -> Seq<char> {
    "Claim def {\"origin\":\""@ + submitter_did + "\", \"schema_seq_no\":"@ + int_decimal(xref)
        + ", \"signature_type\":"@ + signature_type + "} has been added to Ledger"@
}

impl SendClaimDefCommand {
    /// The JSON text of the claim definition data.
    pub fn claim_def_data(primary: serde_json::Value, revocation: Option<&str>) -> (data: String)
        ensures
            data@ == json_text(
                JsonModel::Object(
                    claim_def_entries(json_value_model(primary), opt_str_view(revocation)),
                ),
            ),
    {
        let mut json = json_map_new();
        json_map_insert(&mut json, String::from_str("primary"), primary);
        if let Some(revocation) = revocation {
            json_map_insert(&mut json, String::from_str("revocation"), json_from_str(revocation));
        }
        json_to_string(&json_from_map(json))
    }

    /// The report of `send-claim-def` on the ledger's answer `res` to the
    /// claim definition transaction.
    pub fn report(
        res: Result<(), ErrorCode>,
        submitter_did: &str,
        xref: i32,
        signature_type: &str,
        pool_handle: i32,
        wallet_handle: i32,
    ) -> (r: Report)
        ensures
            report_view(r) == send_report(
                res,
                send_claim_def_success(submitter_did@, xref as int, signature_type@),
                submitter_did@,
                pool_handle as int,
                wallet_handle as int,
            ),
    {
        let mut m = String::from_str("Claim def {\"origin\":\"");
        m.append(submitter_did);
        m.append("\", \"schema_seq_no\":");
        append_i32(&mut m, xref);
        m.append(", \"signature_type\":");
        m.append(signature_type);
        m.append("} has been added to Ledger");
        report_sent(res, m, submitter_did, pool_handle, wallet_handle)
    }
}

/// The report of `get-claim-def` on the claim definition read from the
/// ledger's reply, if the reply held one.
pub open spec fn get_claim_def_report(claim_def: Option<&ClaimDefData>) -> Result<
    Seq<char>,
    Seq<char>,
> {
    match claim_def {
        Some(c) => Ok("Following ClaimDef has been received: \""@ + c.debug_text() + "\""@),
        None => Err("Claim definition not found"@),
    }
}

impl GetClaimDefCommand {
    /// The report of `get-claim-def`: the claim definition that the ledger's
    /// reply held, or that none was found.
    pub fn report(claim_def: Option<&ClaimDefData>) -> (r: Report)
        ensures
            report_view(r) == get_claim_def_report(claim_def),
    {
        match claim_def {
            Some(c) => {
                let mut m = String::from_str("Following ClaimDef has been received: \"");
                let t = c.debug_string();
                m.append(t.as_str());
                m.append("\"");
                Ok(m)
            },
            None => Err(String::from_str("Claim definition not found")),
        }
    }
}

/// A JSON string of an optional string slice.
pub open spec fn opt_str_json(o: Option<&str>) -> Option<JsonModel> {
    match o {
        Some(s) => Some(JsonModel::Str(s@)),
        None => None,
    }
}

/// A JSON integer of an optional `i32`.
pub open spec fn opt_i32_json(o: Option<i32>) -> Option<JsonModel> {
    match o {
        Some(n) => Some(JsonModel::Int(n as int)),
        None => None,
    }
}

/// A JSON array of strings of an optional list.
pub open spec fn opt_strs_json(o: Option<Vec<&str>>) -> Option<JsonModel> {
    match o {
        Some(v) => Some(JsonModel::Array(str_array_model(v@))),
        None => None,
    }
}

/// The entries of `m`, with `key` mapped to `value` when there is one.
pub open spec fn with_entry(
    m: Map<Seq<char>, JsonModel>,
    key: Seq<char>,
    value: Option<JsonModel>,
) -> Map<Seq<char>, JsonModel> {
    match value {
        Some(v) => m.insert(key, v),
        None => m,
    }
}

/// The entries of the node data that `send-node` puts on the ledger: each
/// of the node's properties that was given, under its name.
pub open spec fn node_entries(
    node_ip: Option<JsonModel>,
    node_port: Option<JsonModel>,
    client_ip: Option<JsonModel>,
    client_port: Option<JsonModel>,
    alias: Option<JsonModel>,
    blskey: Option<JsonModel>,
    services: Option<JsonModel>,
) -> Map<Seq<char>, JsonModel> {
    with_entry(
        with_entry(
            with_entry(
                with_entry(
                    with_entry(
                        with_entry(with_entry(no_entries(), "node_ip"@, node_ip), "node_port"@, node_port),
                        "client_ip"@,
                        client_ip,
                    ),
                    "client_port"@,
                    client_port,
                ),
                "alias"@,
                alias,
            ),
            "blskey"@,
            blskey,
        ),
        "services"@,
        services,
    )
}

/// The node data holds exactly the properties of the node that were given:
/// each under its own name, with its value, and nothing else.
pub proof fn lemma_node_entries_hold_given_properties(
    node_ip: Option<JsonModel>,
    node_port: Option<JsonModel>,
    client_ip: Option<JsonModel>,
    client_port: Option<JsonModel>,
    alias: Option<JsonModel>,
    blskey: Option<JsonModel>,
    services: Option<JsonModel>,
)
    ensures
        ({
            let m = node_entries(
                node_ip,
                node_port,
                client_ip,
                client_port,
                alias,
                blskey,
                services,
            );
            &&& (m.dom().contains("node_ip"@) <==> node_ip is Some)
            &&& (node_ip matches Some(v) ==> m["node_ip"@] == v)
            &&& (m.dom().contains("node_port"@) <==> node_port is Some)
            &&& (node_port matches Some(v) ==> m["node_port"@] == v)
            &&& (m.dom().contains("client_ip"@) <==> client_ip is Some)
            &&& (client_ip matches Some(v) ==> m["client_ip"@] == v)
            &&& (m.dom().contains("client_port"@) <==> client_port is Some)
            &&& (client_port matches Some(v) ==> m["client_port"@] == v)
            &&& (m.dom().contains("alias"@) <==> alias is Some)
            &&& (alias matches Some(v) ==> m["alias"@] == v)
            &&& (m.dom().contains("blskey"@) <==> blskey is Some)
            &&& (blskey matches Some(v) ==> m["blskey"@] == v)
            &&& (m.dom().contains("services"@) <==> services is Some)
            &&& (services matches Some(v) ==> m["services"@] == v)
            &&& forall|k: Seq<char>|
                #[trigger] m.dom().contains(k) ==> k == "node_ip"@ || k == "node_port"@ || k
                    == "client_ip"@ || k == "client_port"@ || k == "alias"@ || k == "blskey"@ || k
                    == "services"@
        }),
{
    reveal_strlit("node_ip");
    reveal_strlit("node_port");
    reveal_strlit("client_ip");
    reveal_strlit("client_port");
    reveal_strlit("alias");
    reveal_strlit("blskey");
    reveal_strlit("services");
    assert("node_ip"@[0] != "client_ip"@[0]);
    assert("node_port"@.len() != "node_ip"@.len());
    assert("node_port"@[0] != "client_ip"@[0]);
    assert("node_port"@[0] != "client_port"@[0]);
    assert("node_port"@[0] != "services"@[0]);
    assert("node_ip"@[0] != "blskey"@[0]);
    assert("client_ip"@.len() != "client_port"@.len());
}

/// A reading command goes on with the ledger's response when its request
/// went through, and otherwise stops with the message of the error.
pub proof fn lemma_get_response(res: Result<String, ErrorCode>)
    ensures
        res matches Ok(r) ==> response_view(res) == Ok::<Seq<char>, Seq<char>>(r@),
        res matches Err(e) ==> response_view(res) == Err::<Seq<char>, Seq<char>>(
            get_error_message(e),
        ),
{
}

/// The node's properties go into its data as given: an address, a key or
/// an alias as a JSON string, a port as a JSON integer, the services as a
/// JSON array of their strings in order; an absent one not at all.
pub proof fn lemma_node_properties_as_json(s: Option<&str>, n: Option<i32>, v: Option<Vec<&str>>)
    ensures
        s matches Some(x) ==> opt_str_json(s) == Some(JsonModel::Str(x@)),
        s is None ==> opt_str_json(s) is None,
        n matches Some(x) ==> opt_i32_json(n) == Some(JsonModel::Int(x as int)),
        n is None ==> opt_i32_json(n) is None,
        v is None ==> opt_strs_json(v) is None,
        v matches Some(x) ==> opt_strs_json(v) matches Some(JsonModel::Array(a)) && a.len() == x@.len()
            && forall|i: int| 0 <= i < x@.len() ==> #[trigger] a[i] == JsonModel::Str(x@[i]@),
{
}

/// The message of `send-node` once the node is on the ledger.
pub open spec fn send_node_success(node_data: Seq<char>) -> Seq<char> {
    "Node \""@ + node_data + "\" has been added to Ledger"@
}

impl SendNodeCommand {
    /// The JSON text of the node data.
    pub fn node_data(
        node_ip: Option<&str>,
        node_port: Option<i32>,
        client_ip: Option<&str>,
        client_port: Option<i32>,
        alias: Option<&str>,
        blskey: Option<&str>,
        services: Option<Vec<&str>>,
    ) -> (data: String)
        ensures
            data@ == json_text(
                JsonModel::Object(
                    node_entries(
                        opt_str_json(node_ip),
                        opt_i32_json(node_port),
                        opt_str_json(client_ip),
                        opt_i32_json(client_port),
                        opt_str_json(alias),
                        opt_str_json(blskey),
                        opt_strs_json(services),
                    ),
                ),
            ),
    {
        let ghost services_json = opt_strs_json(services);
        let mut json = json_map_new();
        if let Some(node_ip) = node_ip {
            json_map_insert(&mut json, String::from_str("node_ip"), json_from_str(node_ip));
        }
        if let Some(node_port) = node_port {
            json_map_insert(&mut json, String::from_str("node_port"), json_from_i32(node_port));
        }
        if let Some(client_ip) = client_ip {
            json_map_insert(&mut json, String::from_str("client_ip"), json_from_str(client_ip));
        }
        if let Some(client_port) = client_port {
            json_map_insert(&mut json, String::from_str("client_port"), json_from_i32(client_port));
        }
        if let Some(alias) = alias {
            json_map_insert(&mut json, String::from_str("alias"), json_from_str(alias));
        }
        if let Some(blskey) = blskey {
            json_map_insert(&mut json, String::from_str("blskey"), json_from_str(blskey));
        }
        if let Some(services) = services {
            json_map_insert(&mut json, String::from_str("services"), json_from_strs(services));
        }
        json_to_string(&json_from_map(json))
    }

    /// The report of `send-node` on the ledger's answer `res` to the node
    /// transaction that carried `node_data`.
    pub fn report(
        res: Result<(), ErrorCode>,
        node_data: &str,
        submitter_did: &str,
        pool_handle: i32,
        wallet_handle: i32,
    ) -> (r: Report)
        ensures
            report_view(r) == send_report(
                res,
                send_node_success(node_data@),
                submitter_did@,
                pool_handle as int,
                wallet_handle as int,
            ),
    {
        let mut m = String::from_str("Node \"");
        m.append(node_data);
        m.append("\" has been added to Ledger");
        report_sent(res, m, submitter_did, pool_handle, wallet_handle)
    }
}

/// The report of `send-custom` on the ledger's answer `res` to the
/// transaction `txn`.
pub open spec fn custom_report(res: Result<(), ErrorCode>, txn: Seq<char>) -> Result<
    Seq<char>,
    Seq<char>,
> {
    match res {
        Ok(_) => Ok("Transaction has been sent to Ledger"@),
        Err(ErrorCode::LedgerInvalidTransaction) => Err("Invalid transaction \""@ + txn + "\""@),
        Err(ErrorCode::WalletNotFoundError) => Err("There is no active did"@),
        Err(e) => Err(sdk_error_message(e)),
    }
}

impl SenCustomCommand {
    /// Whether the transaction is to be signed: only when `sign` was given
    /// as true.
    pub fn is_signed(sign: Option<bool>) -> (signed: bool)
        ensures
            signed == (sign == Some(true)),
    {
        match sign {
            Some(s) => s,
            None => false,
        }
    }

    /// The report of `send-custom` on the ledger's answer `res` to the
    /// transaction `txn`.
    pub fn report(res: Result<(), ErrorCode>, txn: &str) -> (r: Report)
        ensures
            report_view(r) == custom_report(res, txn@),
    {
        match res {
            Ok(_) => Ok(String::from_str("Transaction has been sent to Ledger")),
            Err(ErrorCode::LedgerInvalidTransaction) => {
                let mut m = String::from_str("Invalid transaction \"");
                m.append(txn);
                m.append("\"");
                Err(m)
            },
            Err(ErrorCode::WalletNotFoundError) => Err(String::from_str("There is no active did")),
            Err(e) => Err(sdk_error(&e)),
        }
    }
}

/// The names under which a command takes its named parameters, in order.
pub open spec fn param_names(c: CommandView) -> Seq<Seq<char>> {
    c.params.map_values(|p: ParamView| p.name)
}

/// No two parameters of a command share a name: the named ones are
/// distinct, and the main one, if any, is named like none of them.
pub open spec fn params_distinct(c: CommandView) -> bool {
    &&& param_names(c).no_duplicates()
    &&& (c.main_param matches Some(p) ==> !param_names(c).contains(p.name))
}

/// Every ledger command can tell its parameters apart by name: within each
/// command, no two parameters share a name.
pub proof fn lemma_ledger_params_distinct()
    ensures
        params_distinct(send_nym_metadata()),
        params_distinct(get_nym_metadata()),
        params_distinct(send_attrib_metadata()),
        params_distinct(get_attrib_metadata()),
        params_distinct(send_schema_metadata()),
        params_distinct(get_schema_metadata()),
        params_distinct(send_claim_def_metadata()),
        params_distinct(get_claim_def_metadata()),
        params_distinct(send_node_metadata()),
        params_distinct(send_custom_metadata()),
{
    reveal_strlit("alias");
    reveal_strlit("attr");
    reveal_strlit("attr_names");
    reveal_strlit("blskey");
    reveal_strlit("client_ip");
    reveal_strlit("client_port");
    reveal_strlit("did");
    reveal_strlit("enc");
    reveal_strlit("hash");
    reveal_strlit("name");
    reveal_strlit("node_ip");
    reveal_strlit("node_port");
    reveal_strlit("origin");
    reveal_strlit("primary");
    reveal_strlit("raw");
    reveal_strlit("revocation");
    reveal_strlit("role");
    reveal_strlit("schema_no");
    reveal_strlit("services");
    reveal_strlit("sign");
    reveal_strlit("signature_type");
    reveal_strlit("target");
    reveal_strlit("txn");
    reveal_strlit("verkey");
    reveal_strlit("version");
    assert("alias"@.len() != "blskey"@.len());
    assert("alias"@.len() != "role"@.len());
    assert("alias"@.len() != "services"@.len());
    assert("blskey"@.len() != "services"@.len());
    assert("client_ip"@.len() != "alias"@.len());
    assert("client_ip"@.len() != "blskey"@.len());
    assert("client_ip"@.len() != "client_port"@.len());
    assert("client_ip"@.len() != "services"@.len());
    assert("client_port"@.len() != "alias"@.len());
    assert("client_port"@.len() != "blskey"@.len());
    assert("client_port"@.len() != "services"@.len());
    assert("did"@.len() != "alias"@.len());
    assert("did"@.len() != "attr"@.len());
    assert("did"@.len() != "hash"@.len());
    assert("did"@.len() != "name"@.len());
    assert("did"@.len() != "role"@.len());
    assert("did"@.len() != "verkey"@.len());
    assert("did"@.len() != "version"@.len());
    assert("did"@[0] != "enc"@[0]);
    assert("did"@[0] != "raw"@[0]);
    assert("hash"@.len() != "enc"@.len());
    assert("hash"@.len() != "raw"@.len());
    assert("name"@.len() != "attr_names"@.len());
    assert("name"@.len() != "version"@.len());
    assert("node_ip"@.len() != "alias"@.len());
    assert("node_ip"@.len() != "blskey"@.len());
    assert("node_ip"@.len() != "client_ip"@.len());
    assert("node_ip"@.len() != "client_port"@.len());
    assert("node_ip"@.len() != "node_port"@.len());
    assert("node_ip"@.len() != "services"@.len());
    assert("node_port"@.len() != "alias"@.len());
    assert("node_port"@.len() != "blskey"@.len());
    assert("node_port"@.len() != "client_port"@.len());
    assert("node_port"@.len() != "services"@.len());
    assert("node_port"@[0] != "client_ip"@[0]);
    assert("primary"@.len() != "revocation"@.len());
    assert("raw"@[0] != "enc"@[0]);
    assert("schema_no"@.len() != "origin"@.len());
    assert("schema_no"@.len() != "primary"@.len());
    assert("schema_no"@.len() != "revocation"@.len());
    assert("schema_no"@.len() != "signature_type"@.len());
    assert("sign"@.len() != "txn"@.len());
    assert("signature_type"@.len() != "origin"@.len());
    assert("signature_type"@.len() != "primary"@.len());
    assert("signature_type"@.len() != "revocation"@.len());
    assert("target"@.len() != "alias"@.len());
    assert("target"@.len() != "client_ip"@.len());
    assert("target"@.len() != "client_port"@.len());
    assert("target"@.len() != "node_ip"@.len());
    assert("target"@.len() != "node_port"@.len());
    assert("target"@.len() != "services"@.len());
    assert("target"@[0] != "blskey"@[0]);
    assert("verkey"@.len() != "alias"@.len());
    assert("verkey"@.len() != "role"@.len());
    assert("version"@.len() != "attr_names"@.len());
}

/// The data by which `get-schema` names a schema holds exactly its name and
/// its version, as JSON strings.
pub proof fn lemma_get_schema_entries(name: Seq<char>, version: Seq<char>)
    ensures
        ({
            let m = get_schema_entries(name, version);
            &&& m.dom() =~= set!["name"@, "version"@]
            &&& m["name"@] == JsonModel::Str(name)
            &&& m["version"@] == JsonModel::Str(version)
        }),
{
    reveal_strlit("name");
    reveal_strlit("version");
    assert("name"@.len() != "version"@.len());
}

/// The claim definition data holds the primary key as given, and the
/// revocation key as a JSON string exactly when one is given.
pub proof fn lemma_claim_def_entries(primary: JsonModel, revocation: Option<Seq<char>>)
    ensures
        ({
            let m = claim_def_entries(primary, revocation);
            &&& m.dom().contains("primary"@)
            &&& m["primary"@] == primary
            &&& (m.dom().contains("revocation"@) <==> revocation is Some)
            &&& (revocation matches Some(r) ==> m["revocation"@] == JsonModel::Str(r))
            &&& forall|k: Seq<char>|
                #[trigger] m.dom().contains(k) ==> k == "primary"@ || k == "revocation"@
        }),
{
    reveal_strlit("primary");
    reveal_strlit("revocation");
    assert("primary"@.len() != "revocation"@.len());
}

/// What the sending commands say once the ledger accepted: the schema's
/// name and version; the submitter, the schema's number in decimal and the
/// signature type of a claim definition; the node data that was sent.
pub proof fn lemma_send_success_messages(
    name: Seq<char>,
    version: Seq<char>,
    submitter_did: Seq<char>,
    xref: int,
    signature_type: Seq<char>,
    node_data: Seq<char>,
)
    ensures
        send_schema_success(name, version) == "Schema {name: \""@ + name + "\" version: \""@ + version
            + "\"}  has been added to Ledger"@,
        send_claim_def_success(submitter_did, xref, signature_type) == "Claim def {\"origin\":\""@
            + submitter_did + "\", \"schema_seq_no\":"@ + int_decimal(xref) + ", \"signature_type\":"@
            + signature_type + "} has been added to Ledger"@,
        send_node_success(node_data) == "Node \""@ + node_data + "\" has been added to Ledger"@,
{
}

/// The claim definition message tells the schema's number: two messages
/// that differ only in it are the same exactly when the numbers are.
pub proof fn lemma_claim_def_success_shows_xref(
    submitter_did: Seq<char>,
    x1: int,
    x2: int,
    signature_type: Seq<char>,
)
    ensures
        send_claim_def_success(submitter_did, x1, signature_type) == send_claim_def_success(
            submitter_did,
            x2,
            signature_type,
        ) <==> x1 == x2,
{
    let pre = "Claim def {\"origin\":\""@ + submitter_did + "\", \"schema_seq_no\":"@;
    let post = ", \"signature_type\":"@ + signature_type + "} has been added to Ledger"@;
    assert(send_claim_def_success(submitter_did, x1, signature_type) =~= pre + int_decimal(x1)
        + post);
    assert(send_claim_def_success(submitter_did, x2, signature_type) =~= pre + int_decimal(x2)
        + post);
    if send_claim_def_success(submitter_did, x1, signature_type) == send_claim_def_success(
        submitter_did,
        x2,
        signature_type,
    ) {
        lemma_middle_determined(pre, int_decimal(x1), int_decimal(x2), post);
    }
    lemma_int_decimal_injective(x1, x2);
}

/// What the reading commands report: what the ledger's reply held, after
/// `Following .. has been received: ` (a schema and a claim definition in
/// double quotes), or that nothing was found.
pub proof fn lemma_get_reports(
    nym: Option<&NymData>,
    attrib: Option<&AttribData>,
    schema: Option<&SchemaData>,
    claim_def: Option<&ClaimDefData>,
)
    ensures
        nym matches Some(n) ==> get_nym_report(nym) == Ok::<Seq<char>, Seq<char>>(
            "Following NYM has been received: "@ + n.text(),
        ),
        nym is None ==> get_nym_report(nym) == Err::<Seq<char>, Seq<char>>("NYM not found"@),
        attrib matches Some(a) ==> get_attrib_report(attrib) == Ok::<Seq<char>, Seq<char>>(
            "Following Attribute has been received: "@ + a.text(),
        ),
        attrib is None ==> get_attrib_report(attrib) == Err::<Seq<char>, Seq<char>>(
            "Attribute not found"@,
        ),
        schema matches Some(x) ==> get_schema_report(schema) == Ok::<Seq<char>, Seq<char>>(
            "Following Schema has been received: \""@ + x.text() + "\""@,
        ),
        schema is None ==> get_schema_report(schema) == Err::<Seq<char>, Seq<char>>(
            "Schema not found"@,
        ),
        claim_def matches Some(c) ==> get_claim_def_report(claim_def) == Ok::<Seq<char>, Seq<char>>(
            "Following ClaimDef has been received: \""@ + c.debug_text() + "\""@,
        ),
        claim_def is None ==> get_claim_def_report(claim_def) == Err::<Seq<char>, Seq<char>>(
            "Claim definition not found"@,
        ),
{
}

/// What `send-custom` reports: that the transaction was sent when the
/// ledger accepted it; the transaction itself when the ledger found it
/// invalid; that there is no active DID when the wallet was not found; and
/// otherwise the error's name after `Indy SDK error occurred `.
pub proof fn lemma_custom_report(res: Result<(), ErrorCode>, txn: Seq<char>)
    ensures
        res is Ok ==> custom_report(res, txn) == Ok::<Seq<char>, Seq<char>>(
            "Transaction has been sent to Ledger"@,
        ),
        res == Err::<(), ErrorCode>(ErrorCode::LedgerInvalidTransaction) ==> custom_report(res, txn)
            == Err::<Seq<char>, Seq<char>>("Invalid transaction \""@ + txn + "\""@),
        res == Err::<(), ErrorCode>(ErrorCode::WalletNotFoundError) ==> custom_report(res, txn) == Err::<
            Seq<char>,
            Seq<char>,
        >("There is no active did"@),
        res matches Err(e) ==> (!(e is LedgerInvalidTransaction) && !(e is WalletNotFoundError)
            ==> custom_report(res, txn) == Err::<Seq<char>, Seq<char>>(
            "Indy SDK error occurred "@ + error_code_name(e),
        )),
{
}

} // verus!
