//! The folders that make up a workspace.

use crate::codec::{
    Codec, CodecError, field, get, get_optional, group_lookup, Member, optional, optional_field,
    put, put_optional, Record, required, survives,
};
use crate::json::{Json, JsonValue};
use crate::url::{is_url_text, Url};
use vstd::prelude::*;

verus! {

#[derive(Debug, PartialEq, Eq, Clone, Default)]
pub struct WorkspaceCapability {
    /// The server supports workspace folder.
    pub workspace_folders: Option<WorkspaceFolderCapability>,
}

/// What a [`WorkspaceCapability`] stands for.
pub struct WorkspaceCapabilityModel {
    pub workspace_folders: Option<WorkspaceFolderCapabilityModel>,
}

impl DeepView for WorkspaceCapability {
    type V = WorkspaceCapabilityModel;

    open spec fn deep_view(&self) -> WorkspaceCapabilityModel {
        WorkspaceCapabilityModel {
            workspace_folders: self.workspace_folders.deep_view(),
        }
    }
}

impl Record for WorkspaceCapability {
    open spec fn members(before: Seq<Member>, value: WorkspaceCapabilityModel) -> Seq<Member> {
        before
            + optional_field::<WorkspaceFolderCapability>(
                "workspaceFolders"@,
                value.workspace_folders,
            )
    }

    open spec fn read(members: Seq<Member>) -> Result<WorkspaceCapabilityModel, CodecError> {
        let workspace_folders = optional::<WorkspaceFolderCapability>(members, "workspaceFolders"@);
        if workspace_folders is Err {
            Err(workspace_folders->Err_0)
        } else {
            Ok(
                WorkspaceCapabilityModel {
                    workspace_folders: workspace_folders->Ok_0,
                },
            )
        }
    }

    fn write(&self, members: &mut Vec<(String, Json)>) {
        put_optional(members, "workspaceFolders", &self.workspace_folders);
    }

    fn scan(members: &Vec<(String, Json)>) -> (result: Result<WorkspaceCapability, CodecError>) {
        let workspace_folders = get_optional::<WorkspaceFolderCapability>(
            members,
            "workspaceFolders",
        );
        if let Err(error) = workspace_folders {
            Err(error)
        } else {
            Ok(
                WorkspaceCapability {
                    workspace_folders: workspace_folders.unwrap(),
                },
            )
        }
    }
}

impl WorkspaceCapability {
    /// Every value comes back unchanged from the document that stands for it.
    pub proof fn lemma_survives(value: WorkspaceCapabilityModel)
        ensures
            survives::<WorkspaceCapability>(value),
    {
        broadcast use group_lookup;

        reveal(optional);
        reveal_strlit("workspaceFolders");
        if let Some(inner) = value.workspace_folders {
            WorkspaceFolderCapability::lemma_survives(inner);
        }
    }
}

#[derive(Debug, PartialEq, Eq, Clone, Default)]
pub struct WorkspaceFolderCapability {
    pub supported: Option<bool>,
    pub change_notifications: Option<WorkspaceFolderCapabilityChangeNotifications>,
}

/// What a [`WorkspaceFolderCapability`] stands for.
pub struct WorkspaceFolderCapabilityModel {
    pub supported: Option<bool>,
    pub change_notifications: Option<WorkspaceFolderCapabilityChangeNotificationsModel>,
}

impl DeepView for WorkspaceFolderCapability {
    type V = WorkspaceFolderCapabilityModel;

    open spec fn deep_view(&self) -> WorkspaceFolderCapabilityModel {
        WorkspaceFolderCapabilityModel {
            supported: self.supported.deep_view(),
            change_notifications: self.change_notifications.deep_view(),
        }
    }
}

impl Record for WorkspaceFolderCapability {
    open spec fn members(before: Seq<Member>, value: WorkspaceFolderCapabilityModel) -> Seq<Member> {
        before + optional_field::<bool>("supported"@, value.supported)
            + optional_field::<WorkspaceFolderCapabilityChangeNotifications>(
                "changeNotifications"@,
                value.change_notifications,
            )
    }

    open spec fn read(members: Seq<Member>) -> Result<WorkspaceFolderCapabilityModel, CodecError> {
        let supported = optional::<bool>(members, "supported"@);
        let change_notifications = optional::<WorkspaceFolderCapabilityChangeNotifications>(
            members,
            "changeNotifications"@,
        );
        if supported is Err {
            Err(supported->Err_0)
        } else if change_notifications is Err {
            Err(change_notifications->Err_0)
        } else {
            Ok(
                WorkspaceFolderCapabilityModel {
                    supported: supported->Ok_0,
                    change_notifications: change_notifications->Ok_0,
                },
            )
        }
    }

    fn write(&self, members: &mut Vec<(String, Json)>) {
        put_optional(members, "supported", &self.supported);
        put_optional(members, "changeNotifications", &self.change_notifications);
    }

    fn scan(members: &Vec<(String, Json)>) -> (result: Result<WorkspaceFolderCapability, CodecError>) {
        let supported = get_optional::<bool>(members, "supported");
        let change_notifications = get_optional::<WorkspaceFolderCapabilityChangeNotifications>(
            members,
            "changeNotifications",
        );
        if let Err(error) = supported {
            Err(error)
        } else if let Err(error) = change_notifications {
            Err(error)
        } else {
            Ok(
                WorkspaceFolderCapability {
                    supported: supported.unwrap(),
                    change_notifications: change_notifications.unwrap(),
                },
            )
        }
    }
}

impl WorkspaceFolderCapability {
    /// Every value comes back unchanged from the document that stands for it.
    pub proof fn lemma_survives(value: WorkspaceFolderCapabilityModel)
        ensures
            survives::<WorkspaceFolderCapability>(value),
    {
        broadcast use group_lookup;

        reveal(optional);
        reveal_strlit("supported");
        reveal_strlit("changeNotifications");
        if let Some(inner) = value.change_notifications {
            WorkspaceFolderCapabilityChangeNotifications::lemma_survives(inner);
        }
    }
}

#[derive(Debug, PartialEq, Eq, Clone)]
pub enum WorkspaceFolderCapabilityChangeNotifications {
    Bool(bool),
    Id(String),
}

/// What a [`WorkspaceFolderCapabilityChangeNotifications`] stands for.
pub enum WorkspaceFolderCapabilityChangeNotificationsModel {
    Bool(bool),
    Id(Seq<char>),
}

impl DeepView for WorkspaceFolderCapabilityChangeNotifications {
    type V = WorkspaceFolderCapabilityChangeNotificationsModel;

    open spec fn deep_view(&self) -> WorkspaceFolderCapabilityChangeNotificationsModel {
        match self {
            WorkspaceFolderCapabilityChangeNotifications::Bool(value) => WorkspaceFolderCapabilityChangeNotificationsModel::Bool(value.deep_view()),
            WorkspaceFolderCapabilityChangeNotifications::Id(value) => WorkspaceFolderCapabilityChangeNotificationsModel::Id(value.deep_view()),
        }
    }
}

impl Codec for WorkspaceFolderCapabilityChangeNotifications {
    open spec fn encode(value: WorkspaceFolderCapabilityChangeNotificationsModel) -> JsonValue {
        match value {
            WorkspaceFolderCapabilityChangeNotificationsModel::Bool(value) => bool::encode(value),
            WorkspaceFolderCapabilityChangeNotificationsModel::Id(value) => String::encode(value),
        }
    }

    open spec fn decode(json: JsonValue) -> Result<WorkspaceFolderCapabilityChangeNotificationsModel, CodecError> {
        if let Ok(value) = bool::decode(json) {
            Ok(WorkspaceFolderCapabilityChangeNotificationsModel::Bool(value))
        } else if let Ok(value) = String::decode(json) {
            Ok(WorkspaceFolderCapabilityChangeNotificationsModel::Id(value))
        } else {
            Err(CodecError::NoVariantMatched)
        }
    }

    fn serialize(&self) -> (json: Json) {
        match self {
            WorkspaceFolderCapabilityChangeNotifications::Bool(value) => value.serialize(),
            WorkspaceFolderCapabilityChangeNotifications::Id(value) => value.serialize(),
        }
    }

    fn deserialize(json: &Json) -> (result: Result<WorkspaceFolderCapabilityChangeNotifications, CodecError>) {
        if let Ok(value) = bool::deserialize(json) {
            Ok(WorkspaceFolderCapabilityChangeNotifications::Bool(value))
        } else if let Ok(value) = String::deserialize(json) {
            Ok(WorkspaceFolderCapabilityChangeNotifications::Id(value))
        } else {
            Err(CodecError::NoVariantMatched)
        }
    }
}

impl WorkspaceFolderCapabilityChangeNotifications {
    /// A value comes back unchanged from its document exactly when its
    /// payload does and no variant declared before its own reads the
    /// payload's document.
    pub proof fn lemma_round_trip(value: WorkspaceFolderCapabilityChangeNotificationsModel)
        ensures
            survives::<WorkspaceFolderCapabilityChangeNotifications>(value) <==> match value {
                WorkspaceFolderCapabilityChangeNotificationsModel::Bool(v) => survives::<bool>(v),
                WorkspaceFolderCapabilityChangeNotificationsModel::Id(v) => bool::decode(String::encode(v)) is Err
                    && survives::<String>(v),
            },
    {
    }

    /// Every value comes back unchanged from the document that stands for it.
    pub proof fn lemma_survives(value: WorkspaceFolderCapabilityChangeNotificationsModel)
        ensures
            survives::<WorkspaceFolderCapabilityChangeNotifications>(value),
    {
    }
}

#[derive(Debug, PartialEq, Eq, Clone)]
pub struct WorkspaceFolder {
    /// The associated URI for this workspace folder.
    pub uri: Url,
    /// The name of the workspace folder. Defaults to the uri's basename.
    pub name: String,
}

/// What a [`WorkspaceFolder`] stands for.
pub struct WorkspaceFolderModel {
    pub uri: Seq<char>,
    pub name: Seq<char>,
}

impl DeepView for WorkspaceFolder {
    type V = WorkspaceFolderModel;

    open spec fn deep_view(&self) -> WorkspaceFolderModel {
        WorkspaceFolderModel {
            uri: self.uri.deep_view(),
            name: self.name.deep_view(),
        }
    }
}

impl Record for WorkspaceFolder {
    open spec fn members(before: Seq<Member>, value: WorkspaceFolderModel) -> Seq<Member> {
        before + field::<Url>("uri"@, value.uri)
            + field::<String>("name"@, value.name)
    }

    open spec fn read(members: Seq<Member>) -> Result<WorkspaceFolderModel, CodecError> {
        let uri = required::<Url>(members, "uri"@);
        let name = required::<String>(members, "name"@);
        if uri is Err {
            Err(uri->Err_0)
        } else if name is Err {
            Err(name->Err_0)
        } else {
            Ok(
                WorkspaceFolderModel {
                    uri: uri->Ok_0,
                    name: name->Ok_0,
                },
            )
        }
    }

    fn write(&self, members: &mut Vec<(String, Json)>) {
        put(members, "uri", &self.uri);
        put(members, "name", &self.name);
    }

    fn scan(members: &Vec<(String, Json)>) -> (result: Result<WorkspaceFolder, CodecError>) {
        let uri = get::<Url>(members, "uri");
        let name = get::<String>(members, "name");
        if let Err(error) = uri {
            Err(error)
        } else if let Err(error) = name {
            Err(error)
        } else {
            Ok(
                WorkspaceFolder {
                    uri: uri.unwrap(),
                    name: name.unwrap(),
                },
            )
        }
    }
}

impl WorkspaceFolder {
    /// A value comes back unchanged from the document that stands for it
    /// where its fields meet what is asked of them here.
    pub proof fn lemma_round_trip(value: WorkspaceFolderModel)
        requires
            is_url_text(value.uri),
        ensures
            survives::<WorkspaceFolder>(value),
    {
        broadcast use group_lookup;

        reveal(required);
        reveal_strlit("uri");
        reveal_strlit("name");
        Url::lemma_round_trip(value.uri);
    }
}

#[derive(Debug, PartialEq, Eq, Clone, Default)]
pub struct DidChangeWorkspaceFoldersParams {
    /// The actual workspace folder change event.
    pub event: WorkspaceFoldersChangeEvent,
}

/// What a [`DidChangeWorkspaceFoldersParams`] stands for.
pub struct DidChangeWorkspaceFoldersParamsModel {
    pub event: WorkspaceFoldersChangeEventModel,
}

impl DeepView for DidChangeWorkspaceFoldersParams {
    type V = DidChangeWorkspaceFoldersParamsModel;

    open spec fn deep_view(&self) -> DidChangeWorkspaceFoldersParamsModel {
        DidChangeWorkspaceFoldersParamsModel {
            event: self.event.deep_view(),
        }
    }
}

impl Record for DidChangeWorkspaceFoldersParams {
    open spec fn members(before: Seq<Member>, value: DidChangeWorkspaceFoldersParamsModel) -> Seq<Member> {
        before + field::<WorkspaceFoldersChangeEvent>("event"@, value.event)
    }

    open spec fn read(members: Seq<Member>) -> Result<DidChangeWorkspaceFoldersParamsModel, CodecError> {
        let event = required::<WorkspaceFoldersChangeEvent>(members, "event"@);
        if event is Err {
            Err(event->Err_0)
        } else {
            Ok(
                DidChangeWorkspaceFoldersParamsModel {
                    event: event->Ok_0,
                },
            )
        }
    }

    fn write(&self, members: &mut Vec<(String, Json)>) {
        put(members, "event", &self.event);
    }

    fn scan(members: &Vec<(String, Json)>) -> (result: Result<DidChangeWorkspaceFoldersParams, CodecError>) {
        let event = get::<WorkspaceFoldersChangeEvent>(members, "event");
        if let Err(error) = event {
            Err(error)
        } else {
            Ok(
                DidChangeWorkspaceFoldersParams {
                    event: event.unwrap(),
                },
            )
        }
    }
}

impl DidChangeWorkspaceFoldersParams {
    /// A value comes back unchanged from the document that stands for it
    /// where its fields meet what is asked of them here.
    pub proof fn lemma_round_trip(value: DidChangeWorkspaceFoldersParamsModel)
        requires
            survives::<WorkspaceFoldersChangeEvent>(value.event),
        ensures
            survives::<DidChangeWorkspaceFoldersParams>(value),
    {
        broadcast use group_lookup;

        reveal(required);
        reveal_strlit("event");
    }
}

/// The workspace folder change event.
#[derive(Debug, PartialEq, Eq, Clone, Default)]
pub struct WorkspaceFoldersChangeEvent {
    /// The array of added workspace folders
    pub added: Vec<WorkspaceFolder>,
    /// The array of the removed workspace folders
    pub removed: Vec<WorkspaceFolder>,
}

/// What a [`WorkspaceFoldersChangeEvent`] stands for.
pub struct WorkspaceFoldersChangeEventModel {
    pub added: Seq<WorkspaceFolderModel>,
    pub removed: Seq<WorkspaceFolderModel>,
}

impl DeepView for WorkspaceFoldersChangeEvent {
    type V = WorkspaceFoldersChangeEventModel;

    open spec fn deep_view(&self) -> WorkspaceFoldersChangeEventModel {
        WorkspaceFoldersChangeEventModel {
            added: self.added.deep_view(),
            removed: self.removed.deep_view(),
        }
    }
}

impl Record for WorkspaceFoldersChangeEvent {
    open spec fn members(before: Seq<Member>, value: WorkspaceFoldersChangeEventModel) -> Seq<Member> {
        before + field::<Vec<WorkspaceFolder>>("added"@, value.added)
            + field::<Vec<WorkspaceFolder>>("removed"@, value.removed)
    }

    open spec fn read(members: Seq<Member>) -> Result<WorkspaceFoldersChangeEventModel, CodecError> {
        let added = required::<Vec<WorkspaceFolder>>(members, "added"@);
        let removed = required::<Vec<WorkspaceFolder>>(members, "removed"@);
        if added is Err {
            Err(added->Err_0)
        } else if removed is Err {
            Err(removed->Err_0)
        } else {
            Ok(
                WorkspaceFoldersChangeEventModel {
                    added: added->Ok_0,
                    removed: removed->Ok_0,
                },
            )
        }
    }

    fn write(&self, members: &mut Vec<(String, Json)>) {
        put(members, "added", &self.added);
        put(members, "removed", &self.removed);
    }

    fn scan(members: &Vec<(String, Json)>) -> (result: Result<WorkspaceFoldersChangeEvent, CodecError>) {
        let added = get::<Vec<WorkspaceFolder>>(members, "added");
        let removed = get::<Vec<WorkspaceFolder>>(members, "removed");
        if let Err(error) = added {
            Err(error)
        } else if let Err(error) = removed {
            Err(error)
        } else {
            Ok(
                WorkspaceFoldersChangeEvent {
                    added: added.unwrap(),
                    removed: removed.unwrap(),
                },
            )
        }
    }
}

impl WorkspaceFoldersChangeEvent {
    /// A value comes back unchanged from the document that stands for it
    /// where its fields meet what is asked of them here.
    pub proof fn lemma_round_trip(value: WorkspaceFoldersChangeEventModel)
        requires
            survives::<Vec<WorkspaceFolder>>(value.added),
            survives::<Vec<WorkspaceFolder>>(value.removed),
        ensures
            survives::<WorkspaceFoldersChangeEvent>(value),
    {
        broadcast use group_lookup;

        reveal(required);
        reveal_strlit("added");
        reveal_strlit("removed");
    }
}

} // verus!
