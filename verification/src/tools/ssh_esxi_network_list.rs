//! SSH `ESXi` Network List Tool Handler
//!
//! Lists network information on an `ESXi` host via `esxcli network`.
//! Supports components: interface, vswitch, nic, all.
use crate::builders::esxi::{component_refusal, network_list, EsxiCommandBuilder};
use crate::config::HostConfig;
use crate::error::{if_some, BridgeError, Refusal};
use crate::json::{
    contents, fields, new_object, no_fields, object_value, set_field, text_value, Json,
};
use crate::result::{TableAction, TableApp, TableColumn, ToolCallResult, ToolContent};
use crate::shell::texts;
use crate::table::{parse_columnar_output, parsed, tsv, ParsedTable, Table};
use crate::text::{to_upper, upper_case};
use crate::tool::{
    handler_presents_its_tool, Annotation, ArgCheck, CommonArgs, OutputKind, StandardTool,
    StandardToolHandler, ToolHandler,
};
use vstd::prelude::*;

verus! {

/// Arguments for the `ssh_esxi_network_list` tool.
#[derive(Debug)]
pub struct SshEsxiNetworkListArgs {
    pub host: String,
    pub component: Option<String>,
    pub timeout_seconds: Option<u64>,
    pub max_output: Option<u64>,
    pub save_output: Option<String>,
}

impl CommonArgs for SshEsxiNetworkListArgs {
    open spec fn host_name(&self) -> Seq<char> {
        self.host@
    }

    fn host(&self) -> (r: &str) {
        self.host.as_str()
    }
}

/// Handler marker for the `ssh_esxi_network_list` tool.
pub struct EsxiNetworkListTool;

/// What the tool is for, in words for its clients.
pub const DESCRIPTION: &'static str =
    "List network information on a VMware ESXi host. Components: interface (vmk adapters), \
    vswitch (virtual switches), nic (physical NICs), or all (default, returns \
    everything). Uses esxcli network commands.";

/// The JSON schema of the tool's arguments.
pub const SCHEMA: &'static str = r#"{
        "type": "object",
        "properties": {
            "host": {
                "type": "string",
                "description": "Host alias from config.yaml — must be an ESXi host (use ssh_status to list hosts)"
            },
            "component": {
                "type": "string",
                "description": "Network component to query (default: all)",
                "enum": ["interface", "vswitch", "nic", "all"]
            },
            "timeout_seconds": {
                "type": "integer",
                "description": "Optional timeout in seconds (default: from config)",
                "minimum": 1,
                "maximum": 3600
            },
            "max_output": {
                "type": "integer",
                "description": "Max output characters (default: from server config, typically 20000, 0 = no limit). Truncated output includes an output_id for retrieval via ssh_output_fetch.",
                "minimum": 0
            },
            "save_output": {
                "type": "string",
                "description": "Save full output to a local file (on MCP server). The client can then read this file directly with its Read tool."
            }
        },
        "required": ["host"]
    }"#;

impl StandardTool for EsxiNetworkListTool {
    type Args = SshEsxiNetworkListArgs;

    type Check = EsxiNetworkListTool;

    const NAME: &'static str = "ssh_esxi_network_list";

    const DESCRIPTION: &'static str = DESCRIPTION;

    const SCHEMA: &'static str = SCHEMA;

    const GROUP: &'static str = "esxi";

    const ANNOTATION: Annotation = Annotation::ReadOnly;

    const OUTPUT_KIND: OutputKind = OutputKind::Tabular;

    open spec fn command(args: SshEsxiNetworkListArgs) -> Result<Seq<char>, Refusal> {
        Ok(network_list(args.component)@)
    }

    fn build_command(
        args: &SshEsxiNetworkListArgs,
        _host_config: &HostConfig,
    ) -> (r: Result<String, BridgeError>) {
        Ok(EsxiCommandBuilder::build_network_list_command(&args.component))
    }
}

impl ArgCheck<SshEsxiNetworkListArgs> for EsxiNetworkListTool {
    open spec fn refusal(args: SshEsxiNetworkListArgs) -> Option<Refusal> {
        if_some(args.component, |c: Seq<char>| component_refusal(c))
    }

    fn validate(args: &SshEsxiNetworkListArgs, _host_config: &HostConfig) -> (r: Result<
        (),
        BridgeError,
    >) {
        if let Some(component) = &args.component {
            EsxiCommandBuilder::validate_network_component(component.as_str())?;
        }
        Ok(())
    }
}

/// The cell of a row in a column; a row may have fewer cells than there are columns.
pub open spec fn cell(row: Seq<Seq<char>>, column: int) -> Seq<char> {
    if 0 <= column < row.len() {
        row[column]
    } else {
        seq![]
    }
}

/// A row as an object: each heading with its cell. Where a heading occurs twice the last column
/// counts.
pub open spec fn row_fields(headers: Seq<Seq<char>>, row: Seq<Seq<char>>) -> Map<Seq<char>, Json>
    decreases headers.len(),
{
    if headers.len() == 0 {
        no_fields()
    } else {
        row_fields(headers.drop_last(), row).insert(
            headers.last(),
            Json::Text(cell(row, headers.len() - 1)),
        )
    }
}

/// The rows that are shown, in order: those whose first cell is not empty.
pub open spec fn shown_rows(headers: Seq<Seq<char>>, rows: Seq<Seq<Seq<char>>>) -> Seq<Json>
    decreases rows.len(),
{
    if rows.len() == 0 {
        seq![]
    } else if cell(rows.last(), 0).len() == 0 {
        shown_rows(headers, rows.drop_last())
    } else {
        shown_rows(headers, rows.drop_last()).push(Json::Object(row_fields(headers, rows.last())))
    }
}

/// A column shows a heading: under its own name, headed by its upper-case form.
pub open spec fn column_shows(column: TableColumn, header: Seq<char>) -> bool {
    column.key@ == header && column.label@ == upper_case(header)
}

/// The contents of several values.
pub open spec fn all_contents(values: Seq<serde_json::Value>) -> Seq<Json> {
    Seq::new(values.len(), |i: int| contents(values[i]))
}

/// The action that lists the same host again.
pub open spec fn refreshes(action: TableAction, host: Seq<char>) -> bool {
    &&& action.id@ == "refresh"@
    &&& action.label@ == "Refresh"@
    &&& action.tool@ == "ssh_esxi_network_list"@
    &&& contents(action.arguments) == Json::Object(no_fields().insert("host"@, Json::Text(host)))
}

/// An app shows a table: its columns, its rows and one action, which refreshes it.
pub open spec fn app_shows(app: TableApp, table: Table, host: Seq<char>) -> bool {
    &&& app.title@ == "ESXi Networks"@
    &&& app.columns@.len() == table.headers.len()
    &&& forall|i: int|
        0 <= i < app.columns@.len() ==> column_shows(#[trigger] app.columns@[i], table.headers[i])
    &&& all_contents(app.rows@) == shown_rows(table.headers, table.rows)
    &&& app.actions@.len() == 1
    &&& refreshes(app.actions@[0], host)
}

/// The answer for a table: its tab-separated form as the one text, and an app that shows it.
pub open spec fn answers_with(r: ToolCallResult, table: Table, host: Seq<char>) -> bool {
    &&& r.content@.len() == 1
    &&& r.content@[0] matches ToolContent::Text { text } && text@ == tsv(table)
    &&& r.structured_content is None
    &&& r.is_error is None
    &&& r.app matches Some(app) && app_shows(app, table, host)
}

fn row_object(headers: &Vec<String>, row: &Vec<String>) -> (r: serde_json::Value)
    ensures
        contents(r) == Json::Object(row_fields(texts(headers@), texts(row@))),
{
    let ghost all = texts(headers@);
    let mut object = new_object();
    let mut i: usize = 0;
    assert(fields(object) =~= row_fields(all.take(0), texts(row@)));
    while i < headers.len()
        invariant
            i <= headers@.len(),
            all == texts(headers@),
            fields(object) == row_fields(all.take(i as int), texts(row@)),
        decreases headers@.len() - i,
    {
        let value: String = if i < row.len() {
            row[i].as_str().to_owned()
        } else {
            String::new()
        };
        proof {
            let next = all.take(i + 1);
            assert(next.drop_last() =~= all.take(i as int));
            assert(next.last() == headers@[i as int]@);
            assert(value@ =~= cell(texts(row@), i as int));
        }
        set_field(&mut object, headers[i].as_str(), text_value(value));
        i += 1;
    }
    assert(all.take(headers@.len() as int) =~= all);
    object_value(object)
}

fn table_columns(headers: &Vec<String>) -> (r: Vec<TableColumn>)
    ensures
        r@.len() == headers@.len(),
        forall|i: int|
            0 <= i < r@.len() ==> column_shows(#[trigger] r@[i], texts(headers@)[i]),
{
    let mut columns: Vec<TableColumn> = Vec::new();
    let mut i: usize = 0;
    while i < headers.len()
        invariant
            i <= headers@.len(),
            columns@.len() == i,
            forall|j: int|
                0 <= j < i ==> column_shows(#[trigger] columns@[j], texts(headers@)[j]),
        decreases headers@.len() - i,
    {
        let header: &str = headers[i].as_str();
        columns.push(TableColumn { key: header.to_owned(), label: to_upper(header) });
        i += 1;
    }
    columns
}

fn table_rows(table: &ParsedTable) -> (r: Vec<serde_json::Value>)
    ensures
        all_contents(r@) == shown_rows(table@.headers, table@.rows),
{
    let ghost headers = table@.headers;
    let ghost all = table@.rows;
    let mut rows: Vec<serde_json::Value> = Vec::new();
    let mut i: usize = 0;
    assert(all_contents(rows@) =~= shown_rows(headers, all.take(0)));
    while i < table.rows.len()
        invariant
            i <= table.rows@.len(),
            headers == table@.headers,
            all == table@.rows,
            all_contents(rows@) == shown_rows(headers, all.take(i as int)),
        decreases table.rows@.len() - i,
    {
        let row: &Vec<String> = &table.rows[i];
        let ghost before = all_contents(rows@);
        proof {
            let next = all.take(i + 1);
            assert(next.drop_last() =~= all.take(i as int));
            assert(next.last() == texts(row@));
        }
        if row.len() > 0 && !row[0].as_str().is_empty() {
            assert(cell(texts(row@), 0) == row@[0]@);
            rows.push(row_object(&table.headers, row));
            assert(all_contents(rows@) =~= before.push(
                Json::Object(row_fields(headers, texts(row@))),
            ));
        } else {
            assert(cell(texts(row@), 0).len() == 0);
        }
        i += 1;
    }
    assert(all.take(table.rows@.len() as int) =~= all);
    rows
}

impl EsxiNetworkListTool {
    /// The answer for a table that was read, and perhaps cut down since.
    pub fn table_result(args: &SshEsxiNetworkListArgs, table: &ParsedTable) -> (r: ToolCallResult)
        ensures
            answers_with(r, table@, args.host@),
    {
        let mut arguments = new_object();
        set_field(&mut arguments, "host", text_value(args.host.as_str().to_owned()));
        let mut actions: Vec<TableAction> = Vec::new();
        actions.push(
            TableAction {
                id: "refresh",
                label: "Refresh",
                tool: "ssh_esxi_network_list",
                arguments: object_value(arguments),
            },
        );
        let app = TableApp {
            title: "ESXi Networks",
            columns: table_columns(&table.headers),
            rows: table_rows(table),
            actions,
        };
        ToolCallResult::text(table.to_tsv()).with_app(app)
    }

    /// Turns output that is a table into an answer with a table to show. Other output leaves the
    /// answer as it is.
    pub fn post_process(
        result: ToolCallResult,
        args: &SshEsxiNetworkListArgs,
        output: &str,
    ) -> (r: ToolCallResult)
        ensures
            match parsed(output@) {
                Some(table) => answers_with(r, table, args.host@),
                None => r == result,
            },
    {
        match parse_columnar_output(output) {
            Some(table) => Self::table_result(args, &table),
            None => result,
        }
    }
}

/// Handler for the `ssh_esxi_network_list` tool.
pub type SshEsxiNetworkListHandler = StandardToolHandler<EsxiNetworkListTool>;

/// What clients are told of the tool.
pub proof fn presents_itself()
    ensures
        <SshEsxiNetworkListHandler as ToolHandler>::TOOL_NAME@ == "ssh_esxi_network_list"@,
        <SshEsxiNetworkListHandler as ToolHandler>::TOOL_DESCRIPTION@ == DESCRIPTION@,
        <SshEsxiNetworkListHandler as ToolHandler>::INPUT_SCHEMA@ == SCHEMA@,
        <SshEsxiNetworkListHandler as ToolHandler>::TOOL_GROUP@ == "esxi"@,
        <SshEsxiNetworkListHandler as ToolHandler>::EFFECT == Annotation::ReadOnly,
        <SshEsxiNetworkListHandler as ToolHandler>::KIND == OutputKind::Tabular,
{
    handler_presents_its_tool::<EsxiNetworkListTool>();
}

} // verus!
