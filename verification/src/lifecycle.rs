//! The initialization of a server.

use crate::capabilities::{ClientCapabilities, ClientCapabilitiesModel};
use crate::codec::{
    Codec, CodecError, field, get, get_optional, group_lookup, Member, nullable_field, optional,
    optional_field, put, put_nullable, put_optional, Record, required, survives, traits_of,
};
use crate::json::{Json, JsonValue};
use crate::server_capabilities::{ServerCapabilities, ServerCapabilitiesModel};
use crate::url::Url;
use crate::workspace_folders::{WorkspaceFolder, WorkspaceFolderModel};
use vstd::prelude::*;

verus! {

#[derive(Debug, PartialEq, Clone)]
pub struct InitializeParams {
    /// The process Id of the parent process that started
    /// the server. Is null if the process has not been started by another process.
    /// If the parent process is not alive then the server should exit (see exit notification) its process.
    pub process_id: Option<u64>,
    /// The rootPath of the workspace. Is null
    /// if no folder is open.
    pub root_path: Option<String>,
    /// The rootUri of the workspace. Is null if no
    /// folder is open. If both `rootPath` and `rootUri` are set
    /// `rootUri` wins.
    pub root_uri: Option<Url>,
    /// User provided initialization options.
    pub initialization_options: Option<Json>,
    /// The capabilities provided by the client (editor)
    pub capabilities: ClientCapabilities,
    /// The initial trace setting. If omitted trace is disabled ('off').
    pub trace: Option<TraceOption>,
    /// The workspace folders configured in the client when the server starts.
    /// This property is only available if the client supports workspace folders.
    /// It can be `null` if the client supports workspace folders but none are
    /// configured.
    pub workspace_folders: Option<Vec<WorkspaceFolder>>,
    /// Information about the client.
    pub client_info: Option<ClientInfo>,
}

/// What a [`InitializeParams`] stands for.
pub struct InitializeParamsModel {
    pub process_id: Option<u64>,
    pub root_path: Option<Seq<char>>,
    pub root_uri: Option<Seq<char>>,
    pub initialization_options: Option<JsonValue>,
    pub capabilities: ClientCapabilitiesModel,
    pub trace: Option<TraceOption>,
    pub workspace_folders: Option<Seq<WorkspaceFolderModel>>,
    pub client_info: Option<ClientInfoModel>,
}

impl DeepView for InitializeParams {
    type V = InitializeParamsModel;

    open spec fn deep_view(&self) -> InitializeParamsModel {
        InitializeParamsModel {
            process_id: self.process_id.deep_view(),
            root_path: self.root_path.deep_view(),
            root_uri: self.root_uri.deep_view(),
            initialization_options: self.initialization_options.deep_view(),
            capabilities: self.capabilities.deep_view(),
            trace: self.trace.deep_view(),
            workspace_folders: self.workspace_folders.deep_view(),
            client_info: self.client_info.deep_view(),
        }
    }
}

impl Record for InitializeParams {
    open spec fn members(before: Seq<Member>, value: InitializeParamsModel) -> Seq<Member> {
        before + nullable_field::<u64>("processId"@, value.process_id)
            + optional_field::<String>("rootPath"@, value.root_path)
            + nullable_field::<Url>("rootUri"@, value.root_uri)
            + optional_field::<Json>("initializationOptions"@, value.initialization_options)
            + field::<ClientCapabilities>("capabilities"@, value.capabilities)
            + optional_field::<TraceOption>("trace"@, value.trace)
            + optional_field::<Vec<WorkspaceFolder>>("workspaceFolders"@, value.workspace_folders)
            + optional_field::<ClientInfo>("clientInfo"@, value.client_info)
    }

    open spec fn read(members: Seq<Member>) -> Result<InitializeParamsModel, CodecError> {
        let process_id = optional::<u64>(members, "processId"@);
        let root_path = optional::<String>(members, "rootPath"@);
        let root_uri = optional::<Url>(members, "rootUri"@);
        let initialization_options = optional::<Json>(members, "initializationOptions"@);
        let capabilities = required::<ClientCapabilities>(members, "capabilities"@);
        let trace = optional::<TraceOption>(members, "trace"@);
        let workspace_folders = optional::<Vec<WorkspaceFolder>>(members, "workspaceFolders"@);
        let client_info = optional::<ClientInfo>(members, "clientInfo"@);
        if process_id is Err {
            Err(process_id->Err_0)
        } else if root_path is Err {
            Err(root_path->Err_0)
        } else if root_uri is Err {
            Err(root_uri->Err_0)
        } else if initialization_options is Err {
            Err(initialization_options->Err_0)
        } else if capabilities is Err {
            Err(capabilities->Err_0)
        } else if trace is Err {
            Err(trace->Err_0)
        } else if workspace_folders is Err {
            Err(workspace_folders->Err_0)
        } else if client_info is Err {
            Err(client_info->Err_0)
        } else {
            Ok(
                InitializeParamsModel {
                    process_id: process_id->Ok_0,
                    root_path: root_path->Ok_0,
                    root_uri: root_uri->Ok_0,
                    initialization_options: initialization_options->Ok_0,
                    capabilities: capabilities->Ok_0,
                    trace: trace->Ok_0,
                    workspace_folders: workspace_folders->Ok_0,
                    client_info: client_info->Ok_0,
                },
            )
        }
    }

    fn write(&self, members: &mut Vec<(String, Json)>) {
        put_nullable(members, "processId", &self.process_id);
        put_optional(members, "rootPath", &self.root_path);
        put_nullable(members, "rootUri", &self.root_uri);
        put_optional(members, "initializationOptions", &self.initialization_options);
        put(members, "capabilities", &self.capabilities);
        put_optional(members, "trace", &self.trace);
        put_optional(members, "workspaceFolders", &self.workspace_folders);
        put_optional(members, "clientInfo", &self.client_info);
    }

    fn scan(members: &Vec<(String, Json)>) -> (result: Result<InitializeParams, CodecError>) {
        let process_id = get_optional::<u64>(members, "processId");
        let root_path = get_optional::<String>(members, "rootPath");
        let root_uri = get_optional::<Url>(members, "rootUri");
        let initialization_options = get_optional::<Json>(members, "initializationOptions");
        let capabilities = get::<ClientCapabilities>(members, "capabilities");
        let trace = get_optional::<TraceOption>(members, "trace");
        let workspace_folders = get_optional::<Vec<WorkspaceFolder>>(members, "workspaceFolders");
        let client_info = get_optional::<ClientInfo>(members, "clientInfo");
        if let Err(error) = process_id {
            Err(error)
        } else if let Err(error) = root_path {
            Err(error)
        } else if let Err(error) = root_uri {
            Err(error)
        } else if let Err(error) = initialization_options {
            Err(error)
        } else if let Err(error) = capabilities {
            Err(error)
        } else if let Err(error) = trace {
            Err(error)
        } else if let Err(error) = workspace_folders {
            Err(error)
        } else if let Err(error) = client_info {
            Err(error)
        } else {
            Ok(
                InitializeParams {
                    process_id: process_id.unwrap(),
                    root_path: root_path.unwrap(),
                    root_uri: root_uri.unwrap(),
                    initialization_options: initialization_options.unwrap(),
                    capabilities: capabilities.unwrap(),
                    trace: trace.unwrap(),
                    workspace_folders: workspace_folders.unwrap(),
                    client_info: client_info.unwrap(),
                },
            )
        }
    }
}

#[derive(Debug, PartialEq, Clone)]
pub struct ClientInfo {
    /// The name of the client as defined by the client.
    pub name: String,
    /// The client's version as defined by the client.
    pub version: Option<String>,
}

/// What a [`ClientInfo`] stands for.
pub struct ClientInfoModel {
    pub name: Seq<char>,
    pub version: Option<Seq<char>>,
}

impl DeepView for ClientInfo {
    type V = ClientInfoModel;

    open spec fn deep_view(&self) -> ClientInfoModel {
        ClientInfoModel {
            name: self.name.deep_view(),
            version: self.version.deep_view(),
        }
    }
}

impl Record for ClientInfo {
    open spec fn members(before: Seq<Member>, value: ClientInfoModel) -> Seq<Member> {
        before + field::<String>("name"@, value.name)
            + optional_field::<String>("version"@, value.version)
    }

    open spec fn read(members: Seq<Member>) -> Result<ClientInfoModel, CodecError> {
        let name = required::<String>(members, "name"@);
        let version = optional::<String>(members, "version"@);
        if name is Err {
            Err(name->Err_0)
        } else if version is Err {
            Err(version->Err_0)
        } else {
            Ok(
                ClientInfoModel {
                    name: name->Ok_0,
                    version: version->Ok_0,
                },
            )
        }
    }

    fn write(&self, members: &mut Vec<(String, Json)>) {
        put(members, "name", &self.name);
        put_optional(members, "version", &self.version);
    }

    fn scan(members: &Vec<(String, Json)>) -> (result: Result<ClientInfo, CodecError>) {
        let name = get::<String>(members, "name");
        let version = get_optional::<String>(members, "version");
        if let Err(error) = name {
            Err(error)
        } else if let Err(error) = version {
            Err(error)
        } else {
            Ok(
                ClientInfo {
                    name: name.unwrap(),
                    version: version.unwrap(),
                },
            )
        }
    }
}

impl ClientInfo {
    /// Every value comes back unchanged from the document that stands for it.
    pub proof fn lemma_survives(value: ClientInfoModel)
        ensures
            survives::<ClientInfo>(value),
    {
        broadcast use group_lookup;

        reveal(required);
        reveal(optional);
        reveal_strlit("name");
        reveal_strlit("version");
    }
}

#[derive(Debug, PartialEq, Clone, Copy)]
pub struct InitializedParams {}

impl DeepView for InitializedParams {
    type V = InitializedParams;

    open spec fn deep_view(&self) -> InitializedParams {
        InitializedParams {  }
    }
}

impl Record for InitializedParams {
    open spec fn members(before: Seq<Member>, value: InitializedParams) -> Seq<Member> {
        before
    }

    open spec fn read(members: Seq<Member>) -> Result<InitializedParams, CodecError> {
        Ok(InitializedParams {  })
    }

    fn write(&self, members: &mut Vec<(String, Json)>) {
    }

    fn scan(members: &Vec<(String, Json)>) -> (result: Result<InitializedParams, CodecError>) {
        Ok(InitializedParams {  })
    }
}

impl InitializedParams {
    /// Every value comes back unchanged from the document that stands for it.
    pub proof fn lemma_survives(value: InitializedParams)
        ensures
            survives::<InitializedParams>(value),
    {
    }
}

#[derive(Debug, PartialEq, Eq, Structural, Clone, Copy)]
pub enum TraceOption {
    Off,
    Messages,
    Verbose,
}

impl DeepView for TraceOption {
    type V = TraceOption;

    open spec fn deep_view(&self) -> TraceOption {
        *self
    }
}

impl TraceOption {
    /// The string that stands for a variant on the wire.
    pub open spec fn name(self) -> Seq<char> {
        match self {
            TraceOption::Off => "off"@,
            TraceOption::Messages => "messages"@,
            TraceOption::Verbose => "verbose"@,
        }
    }

    /// The variant that a string stands for, if any.
    pub open spec fn named(name: Seq<char>) -> Option<TraceOption> {
        if name == "off"@ {
            Some(TraceOption::Off)
        } else if name == "messages"@ {
            Some(TraceOption::Messages)
        } else if name == "verbose"@ {
            Some(TraceOption::Verbose)
        } else {
            None
        }
    }

    /// Gives the string that stands for this variant on the wire.
    pub fn as_str(&self) -> (name: &'static str)
        ensures
            name@ == self.name(),
    {
        match self {
            TraceOption::Off => "off",
            TraceOption::Messages => "messages",
            TraceOption::Verbose => "verbose",
        }
    }

    /// Gives the variant that a string stands for, if any.
    pub fn from_name(name: &String) -> (variant: Option<TraceOption>)
        ensures
            variant == Self::named(name@),
    {
        if *name == "off".to_owned() {
            Some(TraceOption::Off)
        } else if *name == "messages".to_owned() {
            Some(TraceOption::Messages)
        } else if *name == "verbose".to_owned() {
            Some(TraceOption::Verbose)
        } else {
            None
        }
    }

    /// Every variant comes back unchanged from the string that stands for it.
    pub proof fn lemma_survives(value: TraceOption)
        ensures
            survives::<TraceOption>(value),
    {
        reveal_strlit("off");
        reveal_strlit("messages");
        reveal_strlit("verbose");
        assert(traits_of("off"@) == (3nat, 'o', ' ', 'f'));
        assert(traits_of("messages"@) == (8nat, 'm', 'a', 'e'));
        assert(traits_of("verbose"@) == (7nat, 'v', 'o', 's'));
    }
}

impl Codec for TraceOption {
    open spec fn encode(value: TraceOption) -> JsonValue {
        JsonValue::String(value.name())
    }

    open spec fn decode(json: JsonValue) -> Result<TraceOption, CodecError> {
        match json {
            JsonValue::String(name) => match Self::named(name) {
                Some(variant) => Ok(variant),
                None => Err(CodecError::UnknownVariant),
            },
            _ => Err(CodecError::UnexpectedType),
        }
    }

    fn serialize(&self) -> (json: Json) {
        Json::String(self.as_str().to_owned())
    }

    fn deserialize(json: &Json) -> (result: Result<TraceOption, CodecError>) {
        match json {
            Json::String(name) => match Self::from_name(name) {
                Some(variant) => Ok(variant),
                None => Err(CodecError::UnknownVariant),
            },
            _ => Err(CodecError::UnexpectedType),
        }
    }
}

impl Default for TraceOption {
    fn default() -> (result: TraceOption)
        ensures
            result == TraceOption::Off,
    {
        TraceOption::Off
    }
}

#[derive(Debug, PartialEq, Clone, Default)]
pub struct InitializeResult {
    /// The capabilities the language server provides.
    pub capabilities: ServerCapabilities,
    /// The capabilities the language server provides.
    pub server_info: Option<ServerInfo>,
}

/// What a [`InitializeResult`] stands for.
pub struct InitializeResultModel {
    pub capabilities: ServerCapabilitiesModel,
    pub server_info: Option<ServerInfoModel>,
}

impl DeepView for InitializeResult {
    type V = InitializeResultModel;

    open spec fn deep_view(&self) -> InitializeResultModel {
        InitializeResultModel {
            capabilities: self.capabilities.deep_view(),
            server_info: self.server_info.deep_view(),
        }
    }
}

impl Record for InitializeResult {
    open spec fn members(before: Seq<Member>, value: InitializeResultModel) -> Seq<Member> {
        before + field::<ServerCapabilities>("capabilities"@, value.capabilities)
            + optional_field::<ServerInfo>("serverInfo"@, value.server_info)
    }

    open spec fn read(members: Seq<Member>) -> Result<InitializeResultModel, CodecError> {
        let capabilities = required::<ServerCapabilities>(members, "capabilities"@);
        let server_info = optional::<ServerInfo>(members, "serverInfo"@);
        if capabilities is Err {
            Err(capabilities->Err_0)
        } else if server_info is Err {
            Err(server_info->Err_0)
        } else {
            Ok(
                InitializeResultModel {
                    capabilities: capabilities->Ok_0,
                    server_info: server_info->Ok_0,
                },
            )
        }
    }

    fn write(&self, members: &mut Vec<(String, Json)>) {
        put(members, "capabilities", &self.capabilities);
        put_optional(members, "serverInfo", &self.server_info);
    }

    fn scan(members: &Vec<(String, Json)>) -> (result: Result<InitializeResult, CodecError>) {
        let capabilities = get::<ServerCapabilities>(members, "capabilities");
        let server_info = get_optional::<ServerInfo>(members, "serverInfo");
        if let Err(error) = capabilities {
            Err(error)
        } else if let Err(error) = server_info {
            Err(error)
        } else {
            Ok(
                InitializeResult {
                    capabilities: capabilities.unwrap(),
                    server_info: server_info.unwrap(),
                },
            )
        }
    }
}

impl InitializeResult {
    /// A value comes back unchanged from the document that stands for it
    /// where its fields meet what is asked of them here.
    pub proof fn lemma_round_trip(value: InitializeResultModel)
        requires
            survives::<ServerCapabilities>(value.capabilities),
        ensures
            survives::<InitializeResult>(value),
    {
        broadcast use group_lookup;

        reveal(required);
        reveal(optional);
        reveal_strlit("capabilities");
        reveal_strlit("serverInfo");
        if let Some(inner) = value.server_info {
            ServerInfo::lemma_survives(inner);
        }
    }
}

#[derive(Debug, PartialEq, Eq, Clone, Default)]
pub struct ServerInfo {
    /// The name of the server as defined by the server.
    pub name: String,
    /// The servers's version as defined by the server.
    pub version: Option<String>,
}

/// What a [`ServerInfo`] stands for.
pub struct ServerInfoModel {
    pub name: Seq<char>,
    pub version: Option<Seq<char>>,
}

impl DeepView for ServerInfo {
    type V = ServerInfoModel;

    open spec fn deep_view(&self) -> ServerInfoModel {
        ServerInfoModel {
            name: self.name.deep_view(),
            version: self.version.deep_view(),
        }
    }
}

impl Record for ServerInfo {
    open spec fn members(before: Seq<Member>, value: ServerInfoModel) -> Seq<Member> {
        before + field::<String>("name"@, value.name)
            + optional_field::<String>("version"@, value.version)
    }

    open spec fn read(members: Seq<Member>) -> Result<ServerInfoModel, CodecError> {
        let name = required::<String>(members, "name"@);
        let version = optional::<String>(members, "version"@);
        if name is Err {
            Err(name->Err_0)
        } else if version is Err {
            Err(version->Err_0)
        } else {
            Ok(
                ServerInfoModel {
                    name: name->Ok_0,
                    version: version->Ok_0,
                },
            )
        }
    }

    fn write(&self, members: &mut Vec<(String, Json)>) {
        put(members, "name", &self.name);
        put_optional(members, "version", &self.version);
    }

    fn scan(members: &Vec<(String, Json)>) -> (result: Result<ServerInfo, CodecError>) {
        let name = get::<String>(members, "name");
        let version = get_optional::<String>(members, "version");
        if let Err(error) = name {
            Err(error)
        } else if let Err(error) = version {
            Err(error)
        } else {
            Ok(
                ServerInfo {
                    name: name.unwrap(),
                    version: version.unwrap(),
                },
            )
        }
    }
}

impl ServerInfo {
    /// Every value comes back unchanged from the document that stands for it.
    pub proof fn lemma_survives(value: ServerInfoModel)
        ensures
            survives::<ServerInfo>(value),
    {
        broadcast use group_lookup;

        reveal(required);
        reveal(optional);
        reveal_strlit("name");
        reveal_strlit("version");
    }
}

#[derive(Debug, PartialEq, Eq, Structural, Clone, Default)]
pub struct InitializeError {
    /// Indicates whether the client should retry to send the
    /// initilize request after showing the message provided
    /// in the ResponseError.
    pub retry: bool,
}

impl DeepView for InitializeError {
    type V = InitializeError;

    open spec fn deep_view(&self) -> InitializeError {
        InitializeError {
            retry: self.retry.deep_view(),
        }
    }
}

impl Record for InitializeError {
    open spec fn members(before: Seq<Member>, value: InitializeError) -> Seq<Member> {
        before + field::<bool>("retry"@, value.retry)
    }

    open spec fn read(members: Seq<Member>) -> Result<InitializeError, CodecError> {
        let retry = required::<bool>(members, "retry"@);
        if retry is Err {
            Err(retry->Err_0)
        } else {
            Ok(
                InitializeError {
                    retry: retry->Ok_0,
                },
            )
        }
    }

    fn write(&self, members: &mut Vec<(String, Json)>) {
        put(members, "retry", &self.retry);
    }

    fn scan(members: &Vec<(String, Json)>) -> (result: Result<InitializeError, CodecError>) {
        let retry = get::<bool>(members, "retry");
        if let Err(error) = retry {
            Err(error)
        } else {
            Ok(
                InitializeError {
                    retry: retry.unwrap(),
                },
            )
        }
    }
}

impl InitializeError {
    /// Every value comes back unchanged from the document that stands for it.
    pub proof fn lemma_survives(value: InitializeError)
        ensures
            survives::<InitializeError>(value),
    {
        broadcast use group_lookup;

        reveal(required);
        reveal_strlit("retry");
    }
}

} // verus!
