//! Creation, renaming and deletion of files: what clients and servers
//! support and the notifications about it.

use crate::codec::{
    Codec, CodecError, field, get, get_optional, group_lookup, lemma_sequence_round_trip, Member,
    optional, optional_field, put, put_optional, Record, required, survives, traits_of,
};
use crate::json::{Json, JsonValue};
use crate::workspace_folders::{
    WorkspaceFolderCapabilityChangeNotifications, WorkspaceFolderCapabilityChangeNotificationsModel,
};
use vstd::prelude::*;

verus! {

#[derive(Debug, PartialEq, Eq, Structural, Clone, Default)]
pub struct WorkspaceFileOperationsClientCapabilities {
    /// Whether the client supports dynamic registration for file
    /// requests/notifications.
    pub dynamic_registration: Option<bool>,
    /// The client has support for sending didCreateFiles notifications.
    pub did_create: Option<bool>,
    /// The server is interested in receiving willCreateFiles requests.
    pub will_create: Option<bool>,
    /// The server is interested in receiving didRenameFiles requests.
    pub did_rename: Option<bool>,
    /// The server is interested in receiving willRenameFiles requests.
    pub will_rename: Option<bool>,
    /// The server is interested in receiving didDeleteFiles requests.
    pub did_delete: Option<bool>,
    /// The server is interested in receiving willDeleteFiles requests.
    pub will_delete: Option<bool>,
}

impl DeepView for WorkspaceFileOperationsClientCapabilities {
    type V = WorkspaceFileOperationsClientCapabilities;

    open spec fn deep_view(&self) -> WorkspaceFileOperationsClientCapabilities {
        WorkspaceFileOperationsClientCapabilities {
            dynamic_registration: self.dynamic_registration.deep_view(),
            did_create: self.did_create.deep_view(),
            will_create: self.will_create.deep_view(),
            did_rename: self.did_rename.deep_view(),
            will_rename: self.will_rename.deep_view(),
            did_delete: self.did_delete.deep_view(),
            will_delete: self.will_delete.deep_view(),
        }
    }
}

impl Record for WorkspaceFileOperationsClientCapabilities {
    open spec fn members(before: Seq<Member>, value: WorkspaceFileOperationsClientCapabilities) -> Seq<Member> {
        before + optional_field::<bool>("dynamicRegistration"@, value.dynamic_registration)
            + optional_field::<bool>("didCreate"@, value.did_create)
            + optional_field::<bool>("willCreate"@, value.will_create)
            + optional_field::<bool>("didRename"@, value.did_rename)
            + optional_field::<bool>("willRename"@, value.will_rename)
            + optional_field::<bool>("didDelete"@, value.did_delete)
            + optional_field::<bool>("willDelete"@, value.will_delete)
    }

    open spec fn read(members: Seq<Member>) -> Result<WorkspaceFileOperationsClientCapabilities, CodecError> {
        let dynamic_registration = optional::<bool>(members, "dynamicRegistration"@);
        let did_create = optional::<bool>(members, "didCreate"@);
        let will_create = optional::<bool>(members, "willCreate"@);
        let did_rename = optional::<bool>(members, "didRename"@);
        let will_rename = optional::<bool>(members, "willRename"@);
        let did_delete = optional::<bool>(members, "didDelete"@);
        let will_delete = optional::<bool>(members, "willDelete"@);
        if dynamic_registration is Err {
            Err(dynamic_registration->Err_0)
        } else if did_create is Err {
            Err(did_create->Err_0)
        } else if will_create is Err {
            Err(will_create->Err_0)
        } else if did_rename is Err {
            Err(did_rename->Err_0)
        } else if will_rename is Err {
            Err(will_rename->Err_0)
        } else if did_delete is Err {
            Err(did_delete->Err_0)
        } else if will_delete is Err {
            Err(will_delete->Err_0)
        } else {
            Ok(
                WorkspaceFileOperationsClientCapabilities {
                    dynamic_registration: dynamic_registration->Ok_0,
                    did_create: did_create->Ok_0,
                    will_create: will_create->Ok_0,
                    did_rename: did_rename->Ok_0,
                    will_rename: will_rename->Ok_0,
                    did_delete: did_delete->Ok_0,
                    will_delete: will_delete->Ok_0,
                },
            )
        }
    }

    fn write(&self, members: &mut Vec<(String, Json)>) {
        put_optional(members, "dynamicRegistration", &self.dynamic_registration);
        put_optional(members, "didCreate", &self.did_create);
        put_optional(members, "willCreate", &self.will_create);
        put_optional(members, "didRename", &self.did_rename);
        put_optional(members, "willRename", &self.will_rename);
        put_optional(members, "didDelete", &self.did_delete);
        put_optional(members, "willDelete", &self.will_delete);
    }

    fn scan(members: &Vec<(String, Json)>) -> (result: Result<WorkspaceFileOperationsClientCapabilities, CodecError>) {
        let dynamic_registration = get_optional::<bool>(members, "dynamicRegistration");
        let did_create = get_optional::<bool>(members, "didCreate");
        let will_create = get_optional::<bool>(members, "willCreate");
        let did_rename = get_optional::<bool>(members, "didRename");
        let will_rename = get_optional::<bool>(members, "willRename");
        let did_delete = get_optional::<bool>(members, "didDelete");
        let will_delete = get_optional::<bool>(members, "willDelete");
        if let Err(error) = dynamic_registration {
            Err(error)
        } else if let Err(error) = did_create {
            Err(error)
        } else if let Err(error) = will_create {
            Err(error)
        } else if let Err(error) = did_rename {
            Err(error)
        } else if let Err(error) = will_rename {
            Err(error)
        } else if let Err(error) = did_delete {
            Err(error)
        } else if let Err(error) = will_delete {
            Err(error)
        } else {
            Ok(
                WorkspaceFileOperationsClientCapabilities {
                    dynamic_registration: dynamic_registration.unwrap(),
                    did_create: did_create.unwrap(),
                    will_create: will_create.unwrap(),
                    did_rename: did_rename.unwrap(),
                    will_rename: will_rename.unwrap(),
                    did_delete: did_delete.unwrap(),
                    will_delete: will_delete.unwrap(),
                },
            )
        }
    }
}

impl WorkspaceFileOperationsClientCapabilities {
    /// Every value comes back unchanged from the document that stands for it.
    pub proof fn lemma_survives(value: WorkspaceFileOperationsClientCapabilities)
        ensures
            survives::<WorkspaceFileOperationsClientCapabilities>(value),
    {
        broadcast use group_lookup;

        reveal(optional);
        reveal_strlit("dynamicRegistration");
        reveal_strlit("didCreate");
        reveal_strlit("willCreate");
        reveal_strlit("didRename");
        reveal_strlit("willRename");
        reveal_strlit("didDelete");
        reveal_strlit("willDelete");
    }
}

#[derive(Debug, PartialEq, Eq, Clone, Default)]
pub struct WorkspaceServerCapabilities {
    /// The server supports workspace folder.
    pub workspace_folders: Option<WorkspaceFoldersServerCapabilities>,
    pub file_operations: Option<WorkspaceFileOperationsServerCapabilities>,
}

/// What a [`WorkspaceServerCapabilities`] stands for.
pub struct WorkspaceServerCapabilitiesModel {
    pub workspace_folders: Option<WorkspaceFoldersServerCapabilitiesModel>,
    pub file_operations: Option<WorkspaceFileOperationsServerCapabilitiesModel>,
}

impl DeepView for WorkspaceServerCapabilities {
    type V = WorkspaceServerCapabilitiesModel;

    open spec fn deep_view(&self) -> WorkspaceServerCapabilitiesModel {
        WorkspaceServerCapabilitiesModel {
            workspace_folders: self.workspace_folders.deep_view(),
            file_operations: self.file_operations.deep_view(),
        }
    }
}

impl Record for WorkspaceServerCapabilities {
    open spec fn members(before: Seq<Member>, value: WorkspaceServerCapabilitiesModel) -> Seq<Member> {
        before
            + optional_field::<WorkspaceFoldersServerCapabilities>(
                "workspaceFolders"@,
                value.workspace_folders,
            )
            + optional_field::<WorkspaceFileOperationsServerCapabilities>(
                "fileOperations"@,
                value.file_operations,
            )
    }

    open spec fn read(members: Seq<Member>) -> Result<WorkspaceServerCapabilitiesModel, CodecError> {
        let workspace_folders = optional::<WorkspaceFoldersServerCapabilities>(
            members,
            "workspaceFolders"@,
        );
        let file_operations = optional::<WorkspaceFileOperationsServerCapabilities>(
            members,
            "fileOperations"@,
        );
        if workspace_folders is Err {
            Err(workspace_folders->Err_0)
        } else if file_operations is Err {
            Err(file_operations->Err_0)
        } else {
            Ok(
                WorkspaceServerCapabilitiesModel {
                    workspace_folders: workspace_folders->Ok_0,
                    file_operations: file_operations->Ok_0,
                },
            )
        }
    }

    fn write(&self, members: &mut Vec<(String, Json)>) {
        put_optional(members, "workspaceFolders", &self.workspace_folders);
        put_optional(members, "fileOperations", &self.file_operations);
    }

    fn scan(members: &Vec<(String, Json)>) -> (result: Result<WorkspaceServerCapabilities, CodecError>) {
        let workspace_folders = get_optional::<WorkspaceFoldersServerCapabilities>(
            members,
            "workspaceFolders",
        );
        let file_operations = get_optional::<WorkspaceFileOperationsServerCapabilities>(
            members,
            "fileOperations",
        );
        if let Err(error) = workspace_folders {
            Err(error)
        } else if let Err(error) = file_operations {
            Err(error)
        } else {
            Ok(
                WorkspaceServerCapabilities {
                    workspace_folders: workspace_folders.unwrap(),
                    file_operations: file_operations.unwrap(),
                },
            )
        }
    }
}

impl WorkspaceServerCapabilities {
    /// Every value comes back unchanged from the document that stands for it.
    pub proof fn lemma_survives(value: WorkspaceServerCapabilitiesModel)
        ensures
            survives::<WorkspaceServerCapabilities>(value),
    {
        broadcast use group_lookup;

        reveal(optional);
        reveal_strlit("workspaceFolders");
        reveal_strlit("fileOperations");
        if let Some(inner) = value.workspace_folders {
            WorkspaceFoldersServerCapabilities::lemma_survives(inner);
        }
        if let Some(inner) = value.file_operations {
            WorkspaceFileOperationsServerCapabilities::lemma_survives(inner);
        }
    }
}

#[derive(Debug, PartialEq, Eq, Clone, Default)]
pub struct WorkspaceFoldersServerCapabilities {
    /// The server has support for workspace folders
    pub supported: Option<bool>,
    /// Whether the server wants to receive workspace folder
    /// change notifications.
    ///
    /// If a string is provided, the string is treated as an ID
    /// under which the notification is registered on the client
    /// side. The ID can be used to unregister for these events
    /// using the `client/unregisterCapability` request.
    pub change_notifications: Option<WorkspaceFolderCapabilityChangeNotifications>,
}

/// What a [`WorkspaceFoldersServerCapabilities`] stands for.
pub struct WorkspaceFoldersServerCapabilitiesModel {
    pub supported: Option<bool>,
    pub change_notifications: Option<WorkspaceFolderCapabilityChangeNotificationsModel>,
}

impl DeepView for WorkspaceFoldersServerCapabilities {
    type V = WorkspaceFoldersServerCapabilitiesModel;

    open spec fn deep_view(&self) -> WorkspaceFoldersServerCapabilitiesModel {
        WorkspaceFoldersServerCapabilitiesModel {
            supported: self.supported.deep_view(),
            change_notifications: self.change_notifications.deep_view(),
        }
    }
}

impl Record for WorkspaceFoldersServerCapabilities {
    open spec fn members(before: Seq<Member>, value: WorkspaceFoldersServerCapabilitiesModel) -> Seq<Member> {
        before + optional_field::<bool>("supported"@, value.supported)
            + optional_field::<WorkspaceFolderCapabilityChangeNotifications>(
                "changeNotifications"@,
                value.change_notifications,
            )
    }

    open spec fn read(members: Seq<Member>) -> Result<WorkspaceFoldersServerCapabilitiesModel, CodecError> {
        let supported = optional::<bool>(members, "supported"@);
        let change_notifications = optional::<WorkspaceFolderCapabilityChangeNotifications>(
            members,
            "changeNotifications"@,
        );
        if supported is Err {
            Err(supported->Err_0)
        } else if change_notifications is Err {
            Err(change_notifications->Err_0)
        } else {
            Ok(
                WorkspaceFoldersServerCapabilitiesModel {
                    supported: supported->Ok_0,
                    change_notifications: change_notifications->Ok_0,
                },
            )
        }
    }

    fn write(&self, members: &mut Vec<(String, Json)>) {
        put_optional(members, "supported", &self.supported);
        put_optional(members, "changeNotifications", &self.change_notifications);
    }

    fn scan(members: &Vec<(String, Json)>) -> (result: Result<WorkspaceFoldersServerCapabilities, CodecError>) {
        let supported = get_optional::<bool>(members, "supported");
        let change_notifications = get_optional::<WorkspaceFolderCapabilityChangeNotifications>(
            members,
            "changeNotifications",
        );
        if let Err(error) = supported {
            Err(error)
        } else if let Err(error) = change_notifications {
            Err(error)
        } else {
            Ok(
                WorkspaceFoldersServerCapabilities {
                    supported: supported.unwrap(),
                    change_notifications: change_notifications.unwrap(),
                },
            )
        }
    }
}

impl WorkspaceFoldersServerCapabilities {
    /// Every value comes back unchanged from the document that stands for it.
    pub proof fn lemma_survives(value: WorkspaceFoldersServerCapabilitiesModel)
        ensures
            survives::<WorkspaceFoldersServerCapabilities>(value),
    {
        broadcast use group_lookup;

        reveal(optional);
        reveal_strlit("supported");
        reveal_strlit("changeNotifications");
        if let Some(inner) = value.change_notifications {
            WorkspaceFolderCapabilityChangeNotifications::lemma_survives(inner);
        }
    }
}

#[derive(Debug, PartialEq, Eq, Clone, Default)]
pub struct WorkspaceFileOperationsServerCapabilities {
    /// The server is interested in receiving didCreateFiles
    /// notifications.
    pub did_create: Option<FileOperationRegistrationOptions>,
    /// The server is interested in receiving willCreateFiles requests.
    pub will_create: Option<FileOperationRegistrationOptions>,
    /// The server is interested in receiving didRenameFiles
    /// notifications.
    pub did_rename: Option<FileOperationRegistrationOptions>,
    /// The server is interested in receiving willRenameFiles requests.
    pub will_rename: Option<FileOperationRegistrationOptions>,
    /// The server is interested in receiving didDeleteFiles file
    /// notifications.
    pub did_delete: Option<FileOperationRegistrationOptions>,
    /// The server is interested in receiving willDeleteFiles file
    /// requests.
    pub will_delete: Option<FileOperationRegistrationOptions>,
}

/// What a [`WorkspaceFileOperationsServerCapabilities`] stands for.
pub struct WorkspaceFileOperationsServerCapabilitiesModel {
    pub did_create: Option<FileOperationRegistrationOptionsModel>,
    pub will_create: Option<FileOperationRegistrationOptionsModel>,
    pub did_rename: Option<FileOperationRegistrationOptionsModel>,
    pub will_rename: Option<FileOperationRegistrationOptionsModel>,
    pub did_delete: Option<FileOperationRegistrationOptionsModel>,
    pub will_delete: Option<FileOperationRegistrationOptionsModel>,
}

impl DeepView for WorkspaceFileOperationsServerCapabilities {
    type V = WorkspaceFileOperationsServerCapabilitiesModel;

    open spec fn deep_view(&self) -> WorkspaceFileOperationsServerCapabilitiesModel {
        WorkspaceFileOperationsServerCapabilitiesModel {
            did_create: self.did_create.deep_view(),
            will_create: self.will_create.deep_view(),
            did_rename: self.did_rename.deep_view(),
            will_rename: self.will_rename.deep_view(),
            did_delete: self.did_delete.deep_view(),
            will_delete: self.will_delete.deep_view(),
        }
    }
}

impl Record for WorkspaceFileOperationsServerCapabilities {
    open spec fn members(before: Seq<Member>, value: WorkspaceFileOperationsServerCapabilitiesModel) -> Seq<Member> {
        before + optional_field::<FileOperationRegistrationOptions>("didCreate"@, value.did_create)
            + optional_field::<FileOperationRegistrationOptions>("willCreate"@, value.will_create)
            + optional_field::<FileOperationRegistrationOptions>("didRename"@, value.did_rename)
            + optional_field::<FileOperationRegistrationOptions>("willRename"@, value.will_rename)
            + optional_field::<FileOperationRegistrationOptions>("didDelete"@, value.did_delete)
            + optional_field::<FileOperationRegistrationOptions>("willDelete"@, value.will_delete)
    }

    open spec fn read(members: Seq<Member>) -> Result<WorkspaceFileOperationsServerCapabilitiesModel, CodecError> {
        let did_create = optional::<FileOperationRegistrationOptions>(members, "didCreate"@);
        let will_create = optional::<FileOperationRegistrationOptions>(members, "willCreate"@);
        let did_rename = optional::<FileOperationRegistrationOptions>(members, "didRename"@);
        let will_rename = optional::<FileOperationRegistrationOptions>(members, "willRename"@);
        let did_delete = optional::<FileOperationRegistrationOptions>(members, "didDelete"@);
        let will_delete = optional::<FileOperationRegistrationOptions>(members, "willDelete"@);
        if did_create is Err {
            Err(did_create->Err_0)
        } else if will_create is Err {
            Err(will_create->Err_0)
        } else if did_rename is Err {
            Err(did_rename->Err_0)
        } else if will_rename is Err {
            Err(will_rename->Err_0)
        } else if did_delete is Err {
            Err(did_delete->Err_0)
        } else if will_delete is Err {
            Err(will_delete->Err_0)
        } else {
            Ok(
                WorkspaceFileOperationsServerCapabilitiesModel {
                    did_create: did_create->Ok_0,
                    will_create: will_create->Ok_0,
                    did_rename: did_rename->Ok_0,
                    will_rename: will_rename->Ok_0,
                    did_delete: did_delete->Ok_0,
                    will_delete: will_delete->Ok_0,
                },
            )
        }
    }

    fn write(&self, members: &mut Vec<(String, Json)>) {
        put_optional(members, "didCreate", &self.did_create);
        put_optional(members, "willCreate", &self.will_create);
        put_optional(members, "didRename", &self.did_rename);
        put_optional(members, "willRename", &self.will_rename);
        put_optional(members, "didDelete", &self.did_delete);
        put_optional(members, "willDelete", &self.will_delete);
    }

    fn scan(members: &Vec<(String, Json)>) -> (result: Result<WorkspaceFileOperationsServerCapabilities, CodecError>) {
        let did_create = get_optional::<FileOperationRegistrationOptions>(members, "didCreate");
        let will_create = get_optional::<FileOperationRegistrationOptions>(members, "willCreate");
        let did_rename = get_optional::<FileOperationRegistrationOptions>(members, "didRename");
        let will_rename = get_optional::<FileOperationRegistrationOptions>(members, "willRename");
        let did_delete = get_optional::<FileOperationRegistrationOptions>(members, "didDelete");
        let will_delete = get_optional::<FileOperationRegistrationOptions>(members, "willDelete");
        if let Err(error) = did_create {
            Err(error)
        } else if let Err(error) = will_create {
            Err(error)
        } else if let Err(error) = did_rename {
            Err(error)
        } else if let Err(error) = will_rename {
            Err(error)
        } else if let Err(error) = did_delete {
            Err(error)
        } else if let Err(error) = will_delete {
            Err(error)
        } else {
            Ok(
                WorkspaceFileOperationsServerCapabilities {
                    did_create: did_create.unwrap(),
                    will_create: will_create.unwrap(),
                    did_rename: did_rename.unwrap(),
                    will_rename: will_rename.unwrap(),
                    did_delete: did_delete.unwrap(),
                    will_delete: will_delete.unwrap(),
                },
            )
        }
    }
}

impl WorkspaceFileOperationsServerCapabilities {
    /// Every value comes back unchanged from the document that stands for it.
    pub proof fn lemma_survives(value: WorkspaceFileOperationsServerCapabilitiesModel)
        ensures
            survives::<WorkspaceFileOperationsServerCapabilities>(value),
    {
        broadcast use group_lookup;

        reveal(optional);
        reveal_strlit("didCreate");
        reveal_strlit("willCreate");
        reveal_strlit("didRename");
        reveal_strlit("willRename");
        reveal_strlit("didDelete");
        reveal_strlit("willDelete");
        if let Some(inner) = value.did_create {
            FileOperationRegistrationOptions::lemma_survives(inner);
        }
        if let Some(inner) = value.will_create {
            FileOperationRegistrationOptions::lemma_survives(inner);
        }
        if let Some(inner) = value.did_rename {
            FileOperationRegistrationOptions::lemma_survives(inner);
        }
        if let Some(inner) = value.will_rename {
            FileOperationRegistrationOptions::lemma_survives(inner);
        }
        if let Some(inner) = value.did_delete {
            FileOperationRegistrationOptions::lemma_survives(inner);
        }
        if let Some(inner) = value.will_delete {
            FileOperationRegistrationOptions::lemma_survives(inner);
        }
    }
}

/// The options to register for file operations.
///
/// @since 3.16.0 - proposed state
#[derive(Debug, PartialEq, Eq, Clone, Default)]
pub struct FileOperationRegistrationOptions {
    pub patterns: Vec<FileOperationPattern>,
}

/// What a [`FileOperationRegistrationOptions`] stands for.
pub struct FileOperationRegistrationOptionsModel {
    pub patterns: Seq<FileOperationPatternModel>,
}

impl DeepView for FileOperationRegistrationOptions {
    type V = FileOperationRegistrationOptionsModel;

    open spec fn deep_view(&self) -> FileOperationRegistrationOptionsModel {
        FileOperationRegistrationOptionsModel {
            patterns: self.patterns.deep_view(),
        }
    }
}

impl Record for FileOperationRegistrationOptions {
    open spec fn members(before: Seq<Member>, value: FileOperationRegistrationOptionsModel) -> Seq<Member> {
        before + field::<Vec<FileOperationPattern>>("patterns"@, value.patterns)
    }

    open spec fn read(members: Seq<Member>) -> Result<FileOperationRegistrationOptionsModel, CodecError> {
        let patterns = required::<Vec<FileOperationPattern>>(members, "patterns"@);
        if patterns is Err {
            Err(patterns->Err_0)
        } else {
            Ok(
                FileOperationRegistrationOptionsModel {
                    patterns: patterns->Ok_0,
                },
            )
        }
    }

    fn write(&self, members: &mut Vec<(String, Json)>) {
        put(members, "patterns", &self.patterns);
    }

    fn scan(members: &Vec<(String, Json)>) -> (result: Result<FileOperationRegistrationOptions, CodecError>) {
        let patterns = get::<Vec<FileOperationPattern>>(members, "patterns");
        if let Err(error) = patterns {
            Err(error)
        } else {
            Ok(
                FileOperationRegistrationOptions {
                    patterns: patterns.unwrap(),
                },
            )
        }
    }
}

impl FileOperationRegistrationOptions {
    /// Every value comes back unchanged from the document that stands for it.
    pub proof fn lemma_survives(value: FileOperationRegistrationOptionsModel)
        ensures
            survives::<FileOperationRegistrationOptions>(value),
    {
        broadcast use group_lookup;

        reveal(required);
        reveal_strlit("patterns");
        let list = value.patterns;
        assert forall|i: int| 0 <= i < list.len() implies survives::<FileOperationPattern>(
            #[trigger] list[i],
        ) by {
            FileOperationPattern::lemma_survives(list[i]);
        }
        lemma_sequence_round_trip::<FileOperationPattern>(list);
    }
}

/// A pattern kind describing if a glob pattern matches a file a folder or
///  both.
///
///  @since 3.16.0 - proposed state
#[derive(Debug, PartialEq, Eq, Structural, Clone, Copy)]
pub enum FileOperationPatternKind {
    /// The pattern matches a file only.
    File,
    /// The pattern matches a folder only.
    Folder,
}

impl DeepView for FileOperationPatternKind {
    type V = FileOperationPatternKind;

    open spec fn deep_view(&self) -> FileOperationPatternKind {
        *self
    }
}

impl FileOperationPatternKind {
    /// The string that stands for a variant on the wire.
    pub open spec fn name(self) -> Seq<char> {
        match self {
            FileOperationPatternKind::File => "file"@,
            FileOperationPatternKind::Folder => "folder"@,
        }
    }

    /// The variant that a string stands for, if any.
    pub open spec fn named(name: Seq<char>) -> Option<FileOperationPatternKind> {
        if name == "file"@ {
            Some(FileOperationPatternKind::File)
        } else if name == "folder"@ {
            Some(FileOperationPatternKind::Folder)
        } else {
            None
        }
    }

    /// Gives the string that stands for this variant on the wire.
    pub fn as_str(&self) -> (name: &'static str)
        ensures
            name@ == self.name(),
    {
        match self {
            FileOperationPatternKind::File => "file",
            FileOperationPatternKind::Folder => "folder",
        }
    }

    /// Gives the variant that a string stands for, if any.
    pub fn from_name(name: &String) -> (variant: Option<FileOperationPatternKind>)
        ensures
            variant == Self::named(name@),
    {
        if *name == "file".to_owned() {
            Some(FileOperationPatternKind::File)
        } else if *name == "folder".to_owned() {
            Some(FileOperationPatternKind::Folder)
        } else {
            None
        }
    }

    /// Every variant comes back unchanged from the string that stands for it.
    pub proof fn lemma_survives(value: FileOperationPatternKind)
        ensures
            survives::<FileOperationPatternKind>(value),
    {
        reveal_strlit("file");
        reveal_strlit("folder");
        assert(traits_of("file"@) == (4nat, 'f', ' ', 'l'));
        assert(traits_of("folder"@) == (6nat, 'f', 'e', 'e'));
    }
}

impl Codec for FileOperationPatternKind {
    open spec fn encode(value: FileOperationPatternKind) -> JsonValue {
        JsonValue::String(value.name())
    }

    open spec fn decode(json: JsonValue) -> Result<FileOperationPatternKind, CodecError> {
        match json {
            JsonValue::String(name) => match Self::named(name) {
                Some(variant) => Ok(variant),
                None => Err(CodecError::UnknownVariant),
            },
            _ => Err(CodecError::UnexpectedType),
        }
    }

    fn serialize(&self) -> (json: Json) {
        Json::String(self.as_str().to_owned())
    }

    fn deserialize(json: &Json) -> (result: Result<FileOperationPatternKind, CodecError>) {
        match json {
            Json::String(name) => match Self::from_name(name) {
                Some(variant) => Ok(variant),
                None => Err(CodecError::UnknownVariant),
            },
            _ => Err(CodecError::UnexpectedType),
        }
    }
}

/// Matching options for the file operation pattern.
///
/// @since 3.16.0 - proposed state
///
#[derive(Debug, PartialEq, Eq, Structural, Clone, Default)]
pub struct FileOperationPatternOptions {
    /// The pattern should be matched ignoring casing.
    pub ignore_case: Option<bool>,
}

impl DeepView for FileOperationPatternOptions {
    type V = FileOperationPatternOptions;

    open spec fn deep_view(&self) -> FileOperationPatternOptions {
        FileOperationPatternOptions {
            ignore_case: self.ignore_case.deep_view(),
        }
    }
}

impl Record for FileOperationPatternOptions {
    open spec fn members(before: Seq<Member>, value: FileOperationPatternOptions) -> Seq<Member> {
        before + optional_field::<bool>("ignoreCase"@, value.ignore_case)
    }

    open spec fn read(members: Seq<Member>) -> Result<FileOperationPatternOptions, CodecError> {
        let ignore_case = optional::<bool>(members, "ignoreCase"@);
        if ignore_case is Err {
            Err(ignore_case->Err_0)
        } else {
            Ok(
                FileOperationPatternOptions {
                    ignore_case: ignore_case->Ok_0,
                },
            )
        }
    }

    fn write(&self, members: &mut Vec<(String, Json)>) {
        put_optional(members, "ignoreCase", &self.ignore_case);
    }

    fn scan(members: &Vec<(String, Json)>) -> (result: Result<FileOperationPatternOptions, CodecError>) {
        let ignore_case = get_optional::<bool>(members, "ignoreCase");
        if let Err(error) = ignore_case {
            Err(error)
        } else {
            Ok(
                FileOperationPatternOptions {
                    ignore_case: ignore_case.unwrap(),
                },
            )
        }
    }
}

impl FileOperationPatternOptions {
    /// Every value comes back unchanged from the document that stands for it.
    pub proof fn lemma_survives(value: FileOperationPatternOptions)
        ensures
            survives::<FileOperationPatternOptions>(value),
    {
        broadcast use group_lookup;

        reveal(optional);
        reveal_strlit("ignoreCase");
    }
}

/// A pattern to describe in which file operation requests or notifications
/// the server is interested in.
///
/// @since 3.16.0 - proposed state
#[derive(Debug, PartialEq, Eq, Clone, Default)]
pub struct FileOperationPattern {
    /// The glob pattern to match. Glob patterns can have the following syntax:
    /// - `*` to match one or more characters in a path segment
    /// - `?` to match on one character in a path segment
    /// - `**` to match any number of path segments, including none
    /// - `{}` to group conditions (e.g. `**​/*.{ts,js}` matches all TypeScript
    ///   and JavaScript files)
    /// - `[]` to declare a range of characters to match in a path segment
    ///   (e.g., `example.[0-9]` to match on `example.0`, `example.1`, …)
    /// - `[!...]` to negate a range of characters to match in a path segment
    ///   (e.g., `example.[!0-9]` to match on `example.a`, `example.b`, but
    ///   not `example.0`)
    pub glob: String,
    /// Whether to match files or folders with this pattern.
    ///
    /// Matches both if undefined.
    pub matches: Option<FileOperationPatternKind>,
    /// Additional options used during matching.
    pub options: Option<FileOperationPatternOptions>,
}

/// What a [`FileOperationPattern`] stands for.
pub struct FileOperationPatternModel {
    pub glob: Seq<char>,
    pub matches: Option<FileOperationPatternKind>,
    pub options: Option<FileOperationPatternOptions>,
}

impl DeepView for FileOperationPattern {
    type V = FileOperationPatternModel;

    open spec fn deep_view(&self) -> FileOperationPatternModel {
        FileOperationPatternModel {
            glob: self.glob.deep_view(),
            matches: self.matches.deep_view(),
            options: self.options.deep_view(),
        }
    }
}

impl Record for FileOperationPattern {
    open spec fn members(before: Seq<Member>, value: FileOperationPatternModel) -> Seq<Member> {
        before + field::<String>("glob"@, value.glob)
            + optional_field::<FileOperationPatternKind>("matches"@, value.matches)
            + optional_field::<FileOperationPatternOptions>("options"@, value.options)
    }

    open spec fn read(members: Seq<Member>) -> Result<FileOperationPatternModel, CodecError> {
        let glob = required::<String>(members, "glob"@);
        let matches = optional::<FileOperationPatternKind>(members, "matches"@);
        let options = optional::<FileOperationPatternOptions>(members, "options"@);
        if glob is Err {
            Err(glob->Err_0)
        } else if matches is Err {
            Err(matches->Err_0)
        } else if options is Err {
            Err(options->Err_0)
        } else {
            Ok(
                FileOperationPatternModel {
                    glob: glob->Ok_0,
                    matches: matches->Ok_0,
                    options: options->Ok_0,
                },
            )
        }
    }

    fn write(&self, members: &mut Vec<(String, Json)>) {
        put(members, "glob", &self.glob);
        put_optional(members, "matches", &self.matches);
        put_optional(members, "options", &self.options);
    }

    fn scan(members: &Vec<(String, Json)>) -> (result: Result<FileOperationPattern, CodecError>) {
        let glob = get::<String>(members, "glob");
        let matches = get_optional::<FileOperationPatternKind>(members, "matches");
        let options = get_optional::<FileOperationPatternOptions>(members, "options");
        if let Err(error) = glob {
            Err(error)
        } else if let Err(error) = matches {
            Err(error)
        } else if let Err(error) = options {
            Err(error)
        } else {
            Ok(
                FileOperationPattern {
                    glob: glob.unwrap(),
                    matches: matches.unwrap(),
                    options: options.unwrap(),
                },
            )
        }
    }
}

impl FileOperationPattern {
    /// Every value comes back unchanged from the document that stands for it.
    pub proof fn lemma_survives(value: FileOperationPatternModel)
        ensures
            survives::<FileOperationPattern>(value),
    {
        broadcast use group_lookup;

        reveal(required);
        reveal(optional);
        reveal_strlit("glob");
        reveal_strlit("matches");
        reveal_strlit("options");
        if let Some(inner) = value.matches {
            FileOperationPatternKind::lemma_survives(inner);
        }
        if let Some(inner) = value.options {
            FileOperationPatternOptions::lemma_survives(inner);
        }
    }
}

/// The parameters sent in notifications/requests for user-initiated creation
///  of files.
///
///  @since 3.16.0 - proposed state
#[derive(Debug, PartialEq, Eq, Clone, Default)]
pub struct CreateFilesParams {
    /// An array of all files/folders created in this operation.
    pub files: Vec<FileCreate>,
}

/// What a [`CreateFilesParams`] stands for.
pub struct CreateFilesParamsModel {
    pub files: Seq<FileCreateModel>,
}

impl DeepView for CreateFilesParams {
    type V = CreateFilesParamsModel;

    open spec fn deep_view(&self) -> CreateFilesParamsModel {
        CreateFilesParamsModel {
            files: self.files.deep_view(),
        }
    }
}

impl Record for CreateFilesParams {
    open spec fn members(before: Seq<Member>, value: CreateFilesParamsModel) -> Seq<Member> {
        before + field::<Vec<FileCreate>>("files"@, value.files)
    }

    open spec fn read(members: Seq<Member>) -> Result<CreateFilesParamsModel, CodecError> {
        let files = required::<Vec<FileCreate>>(members, "files"@);
        if files is Err {
            Err(files->Err_0)
        } else {
            Ok(
                CreateFilesParamsModel {
                    files: files->Ok_0,
                },
            )
        }
    }

    fn write(&self, members: &mut Vec<(String, Json)>) {
        put(members, "files", &self.files);
    }

    fn scan(members: &Vec<(String, Json)>) -> (result: Result<CreateFilesParams, CodecError>) {
        let files = get::<Vec<FileCreate>>(members, "files");
        if let Err(error) = files {
            Err(error)
        } else {
            Ok(
                CreateFilesParams {
                    files: files.unwrap(),
                },
            )
        }
    }
}

impl CreateFilesParams {
    /// Every value comes back unchanged from the document that stands for it.
    pub proof fn lemma_survives(value: CreateFilesParamsModel)
        ensures
            survives::<CreateFilesParams>(value),
    {
        broadcast use group_lookup;

        reveal(required);
        reveal_strlit("files");
        let list = value.files;
        assert forall|i: int| 0 <= i < list.len() implies survives::<FileCreate>(
            #[trigger] list[i],
        ) by {
            FileCreate::lemma_survives(list[i]);
        }
        lemma_sequence_round_trip::<FileCreate>(list);
    }
}

/// Represents information on a file/folder create.
///
/// @since 3.16.0 - proposed state
#[derive(Debug, PartialEq, Eq, Clone, Default)]
pub struct FileCreate {
    /// A file:// URI for the location of the file/folder being created.
    pub uri: String,
}

/// What a [`FileCreate`] stands for.
pub struct FileCreateModel {
    pub uri: Seq<char>,
}

impl DeepView for FileCreate {
    type V = FileCreateModel;

    open spec fn deep_view(&self) -> FileCreateModel {
        FileCreateModel {
            uri: self.uri.deep_view(),
        }
    }
}

impl Record for FileCreate {
    open spec fn members(before: Seq<Member>, value: FileCreateModel) -> Seq<Member> {
        before + field::<String>("uri"@, value.uri)
    }

    open spec fn read(members: Seq<Member>) -> Result<FileCreateModel, CodecError> {
        let uri = required::<String>(members, "uri"@);
        if uri is Err {
            Err(uri->Err_0)
        } else {
            Ok(
                FileCreateModel {
                    uri: uri->Ok_0,
                },
            )
        }
    }

    fn write(&self, members: &mut Vec<(String, Json)>) {
        put(members, "uri", &self.uri);
    }

    fn scan(members: &Vec<(String, Json)>) -> (result: Result<FileCreate, CodecError>) {
        let uri = get::<String>(members, "uri");
        if let Err(error) = uri {
            Err(error)
        } else {
            Ok(
                FileCreate {
                    uri: uri.unwrap(),
                },
            )
        }
    }
}

impl FileCreate {
    /// Every value comes back unchanged from the document that stands for it.
    pub proof fn lemma_survives(value: FileCreateModel)
        ensures
            survives::<FileCreate>(value),
    {
        broadcast use group_lookup;

        reveal(required);
        reveal_strlit("uri");
    }
}

/// The parameters sent in notifications/requests for user-initiated renames
/// of files.
///
/// @since 3.16.0 - proposed state
#[derive(Debug, PartialEq, Eq, Clone, Default)]
pub struct RenameFilesParams {
    /// An array of all files/folders renamed in this operation. When a folder
    /// is renamed, only the folder will be included, and not its children.
    pub files: Vec<FileRename>,
}

/// What a [`RenameFilesParams`] stands for.
pub struct RenameFilesParamsModel {
    pub files: Seq<FileRenameModel>,
}

impl DeepView for RenameFilesParams {
    type V = RenameFilesParamsModel;

    open spec fn deep_view(&self) -> RenameFilesParamsModel {
        RenameFilesParamsModel {
            files: self.files.deep_view(),
        }
    }
}

impl Record for RenameFilesParams {
    open spec fn members(before: Seq<Member>, value: RenameFilesParamsModel) -> Seq<Member> {
        before + field::<Vec<FileRename>>("files"@, value.files)
    }

    open spec fn read(members: Seq<Member>) -> Result<RenameFilesParamsModel, CodecError> {
        let files = required::<Vec<FileRename>>(members, "files"@);
        if files is Err {
            Err(files->Err_0)
        } else {
            Ok(
                RenameFilesParamsModel {
                    files: files->Ok_0,
                },
            )
        }
    }

    fn write(&self, members: &mut Vec<(String, Json)>) {
        put(members, "files", &self.files);
    }

    fn scan(members: &Vec<(String, Json)>) -> (result: Result<RenameFilesParams, CodecError>) {
        let files = get::<Vec<FileRename>>(members, "files");
        if let Err(error) = files {
            Err(error)
        } else {
            Ok(
                RenameFilesParams {
                    files: files.unwrap(),
                },
            )
        }
    }
}

impl RenameFilesParams {
    /// Every value comes back unchanged from the document that stands for it.
    pub proof fn lemma_survives(value: RenameFilesParamsModel)
        ensures
            survives::<RenameFilesParams>(value),
    {
        broadcast use group_lookup;

        reveal(required);
        reveal_strlit("files");
        let list = value.files;
        assert forall|i: int| 0 <= i < list.len() implies survives::<FileRename>(
            #[trigger] list[i],
        ) by {
            FileRename::lemma_survives(list[i]);
        }
        lemma_sequence_round_trip::<FileRename>(list);
    }
}

/// Represents information on a file/folder rename.
///
/// @since 3.16.0 - proposed state
#[derive(Debug, PartialEq, Eq, Clone, Default)]
pub struct FileRename {
    /// A file:// URI for the location that the file/folder is renamed from.
    pub old_uri: String,
    /// A file:// URI for the new location of the file/folder being renamed.
    pub new_uri: String,
}

/// What a [`FileRename`] stands for.
pub struct FileRenameModel {
    pub old_uri: Seq<char>,
    pub new_uri: Seq<char>,
}

impl DeepView for FileRename {
    type V = FileRenameModel;

    open spec fn deep_view(&self) -> FileRenameModel {
        FileRenameModel {
            old_uri: self.old_uri.deep_view(),
            new_uri: self.new_uri.deep_view(),
        }
    }
}

impl Record for FileRename {
    open spec fn members(before: Seq<Member>, value: FileRenameModel) -> Seq<Member> {
        before + field::<String>("oldUri"@, value.old_uri)
            + field::<String>("newUri"@, value.new_uri)
    }

    open spec fn read(members: Seq<Member>) -> Result<FileRenameModel, CodecError> {
        let old_uri = required::<String>(members, "oldUri"@);
        let new_uri = required::<String>(members, "newUri"@);
        if old_uri is Err {
            Err(old_uri->Err_0)
        } else if new_uri is Err {
            Err(new_uri->Err_0)
        } else {
            Ok(
                FileRenameModel {
                    old_uri: old_uri->Ok_0,
                    new_uri: new_uri->Ok_0,
                },
            )
        }
    }

    fn write(&self, members: &mut Vec<(String, Json)>) {
        put(members, "oldUri", &self.old_uri);
        put(members, "newUri", &self.new_uri);
    }

    fn scan(members: &Vec<(String, Json)>) -> (result: Result<FileRename, CodecError>) {
        let old_uri = get::<String>(members, "oldUri");
        let new_uri = get::<String>(members, "newUri");
        if let Err(error) = old_uri {
            Err(error)
        } else if let Err(error) = new_uri {
            Err(error)
        } else {
            Ok(
                FileRename {
                    old_uri: old_uri.unwrap(),
                    new_uri: new_uri.unwrap(),
                },
            )
        }
    }
}

impl FileRename {
    /// Every value comes back unchanged from the document that stands for it.
    pub proof fn lemma_survives(value: FileRenameModel)
        ensures
            survives::<FileRename>(value),
    {
        broadcast use group_lookup;

        reveal(required);
        reveal_strlit("oldUri");
        reveal_strlit("newUri");
    }
}

/// The parameters sent in notifications/requests for user-initiated deletes
/// of files.
///
/// @since 3.16.0 - proposed state
#[derive(Debug, PartialEq, Eq, Clone, Default)]
pub struct DeleteFilesParams {
    /// An array of all files/folders deleted in this operation.
    pub files: Vec<FileDelete>,
}

/// What a [`DeleteFilesParams`] stands for.
pub struct DeleteFilesParamsModel {
    pub files: Seq<FileDeleteModel>,
}

impl DeepView for DeleteFilesParams {
    type V = DeleteFilesParamsModel;

    open spec fn deep_view(&self) -> DeleteFilesParamsModel {
        DeleteFilesParamsModel {
            files: self.files.deep_view(),
        }
    }
}

impl Record for DeleteFilesParams {
    open spec fn members(before: Seq<Member>, value: DeleteFilesParamsModel) -> Seq<Member> {
        before + field::<Vec<FileDelete>>("files"@, value.files)
    }

    open spec fn read(members: Seq<Member>) -> Result<DeleteFilesParamsModel, CodecError> {
        let files = required::<Vec<FileDelete>>(members, "files"@);
        if files is Err {
            Err(files->Err_0)
        } else {
            Ok(
                DeleteFilesParamsModel {
                    files: files->Ok_0,
                },
            )
        }
    }

    fn write(&self, members: &mut Vec<(String, Json)>) {
        put(members, "files", &self.files);
    }

    fn scan(members: &Vec<(String, Json)>) -> (result: Result<DeleteFilesParams, CodecError>) {
        let files = get::<Vec<FileDelete>>(members, "files");
        if let Err(error) = files {
            Err(error)
        } else {
            Ok(
                DeleteFilesParams {
                    files: files.unwrap(),
                },
            )
        }
    }
}

impl DeleteFilesParams {
    /// Every value comes back unchanged from the document that stands for it.
    pub proof fn lemma_survives(value: DeleteFilesParamsModel)
        ensures
            survives::<DeleteFilesParams>(value),
    {
        broadcast use group_lookup;

        reveal(required);
        reveal_strlit("files");
        let list = value.files;
        assert forall|i: int| 0 <= i < list.len() implies survives::<FileDelete>(
            #[trigger] list[i],
        ) by {
            FileDelete::lemma_survives(list[i]);
        }
        lemma_sequence_round_trip::<FileDelete>(list);
    }
}

/// Represents information on a file/folder delete.
///
/// @since 3.16.0 - proposed state
#[derive(Debug, PartialEq, Eq, Clone, Default)]
pub struct FileDelete {
    /// A file:// URI for the location of the file/folder being deleted.
    pub uri: String,
}

/// What a [`FileDelete`] stands for.
pub struct FileDeleteModel {
    pub uri: Seq<char>,
}

impl DeepView for FileDelete {
    type V = FileDeleteModel;

    open spec fn deep_view(&self) -> FileDeleteModel {
        FileDeleteModel {
            uri: self.uri.deep_view(),
        }
    }
}

impl Record for FileDelete {
    open spec fn members(before: Seq<Member>, value: FileDeleteModel) -> Seq<Member> {
        before + field::<String>("uri"@, value.uri)
    }

    open spec fn read(members: Seq<Member>) -> Result<FileDeleteModel, CodecError> {
        let uri = required::<String>(members, "uri"@);
        if uri is Err {
            Err(uri->Err_0)
        } else {
            Ok(
                FileDeleteModel {
                    uri: uri->Ok_0,
                },
            )
        }
    }

    fn write(&self, members: &mut Vec<(String, Json)>) {
        put(members, "uri", &self.uri);
    }

    fn scan(members: &Vec<(String, Json)>) -> (result: Result<FileDelete, CodecError>) {
        let uri = get::<String>(members, "uri");
        if let Err(error) = uri {
            Err(error)
        } else {
            Ok(
                FileDelete {
                    uri: uri.unwrap(),
                },
            )
        }
    }
}

impl FileDelete {
    /// Every value comes back unchanged from the document that stands for it.
    pub proof fn lemma_survives(value: FileDeleteModel)
        ensures
            survives::<FileDelete>(value),
    {
        broadcast use group_lookup;

        reveal(required);
        reveal_strlit("uri");
    }
}

} // verus!
