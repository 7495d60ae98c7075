//! Configuration that the server asks for or is told about.

use crate::codec::{
    Codec, CodecError, field, get, get_optional, group_lookup, lemma_sequence_round_trip, Member,
    optional, optional_field, put, put_optional, Record, required, survives,
};
use crate::json::{Json, JsonValue};
use vstd::prelude::*;

verus! {

#[derive(Debug, PartialEq, Eq, Clone, Default)]
pub struct ConfigurationParams {
    pub items: Vec<ConfigurationItem>,
}

/// What a [`ConfigurationParams`] stands for.
pub struct ConfigurationParamsModel {
    pub items: Seq<ConfigurationItemModel>,
}

impl DeepView for ConfigurationParams {
    type V = ConfigurationParamsModel;

    open spec fn deep_view(&self) -> ConfigurationParamsModel {
        ConfigurationParamsModel {
            items: self.items.deep_view(),
        }
    }
}

impl Record for ConfigurationParams {
    open spec fn members(before: Seq<Member>, value: ConfigurationParamsModel) -> Seq<Member> {
        before + field::<Vec<ConfigurationItem>>("items"@, value.items)
    }

    open spec fn read(members: Seq<Member>) -> Result<ConfigurationParamsModel, CodecError> {
        let items = required::<Vec<ConfigurationItem>>(members, "items"@);
        if items is Err {
            Err(items->Err_0)
        } else {
            Ok(
                ConfigurationParamsModel {
                    items: items->Ok_0,
                },
            )
        }
    }

    fn write(&self, members: &mut Vec<(String, Json)>) {
        put(members, "items", &self.items);
    }

    fn scan(members: &Vec<(String, Json)>) -> (result: Result<ConfigurationParams, CodecError>) {
        let items = get::<Vec<ConfigurationItem>>(members, "items");
        if let Err(error) = items {
            Err(error)
        } else {
            Ok(
                ConfigurationParams {
                    items: items.unwrap(),
                },
            )
        }
    }
}

impl ConfigurationParams {
    /// Every value comes back unchanged from the document that stands for it.
    pub proof fn lemma_survives(value: ConfigurationParamsModel)
        ensures
            survives::<ConfigurationParams>(value),
    {
        broadcast use group_lookup;

        reveal(required);
        reveal_strlit("items");
        let list = value.items;
        assert forall|i: int| 0 <= i < list.len() implies survives::<ConfigurationItem>(
            #[trigger] list[i],
        ) by {
            ConfigurationItem::lemma_survives(list[i]);
        }
        lemma_sequence_round_trip::<ConfigurationItem>(list);
    }
}

#[derive(Debug, PartialEq, Eq, Clone, Default)]
pub struct ConfigurationItem {
    /// The scope to get the configuration section for.
    pub scope_uri: Option<String>,
    ///The configuration section asked for.
    pub section: Option<String>,
}

/// What a [`ConfigurationItem`] stands for.
pub struct ConfigurationItemModel {
    pub scope_uri: Option<Seq<char>>,
    pub section: Option<Seq<char>>,
}

impl DeepView for ConfigurationItem {
    type V = ConfigurationItemModel;

    open spec fn deep_view(&self) -> ConfigurationItemModel {
        ConfigurationItemModel {
            scope_uri: self.scope_uri.deep_view(),
            section: self.section.deep_view(),
        }
    }
}

impl Record for ConfigurationItem {
    open spec fn members(before: Seq<Member>, value: ConfigurationItemModel) -> Seq<Member> {
        before + optional_field::<String>("scopeUri"@, value.scope_uri)
            + optional_field::<String>("section"@, value.section)
    }

    open spec fn read(members: Seq<Member>) -> Result<ConfigurationItemModel, CodecError> {
        let scope_uri = optional::<String>(members, "scopeUri"@);
        let section = optional::<String>(members, "section"@);
        if scope_uri is Err {
            Err(scope_uri->Err_0)
        } else if section is Err {
            Err(section->Err_0)
        } else {
            Ok(
                ConfigurationItemModel {
                    scope_uri: scope_uri->Ok_0,
                    section: section->Ok_0,
                },
            )
        }
    }

    fn write(&self, members: &mut Vec<(String, Json)>) {
        put_optional(members, "scopeUri", &self.scope_uri);
        put_optional(members, "section", &self.section);
    }

    fn scan(members: &Vec<(String, Json)>) -> (result: Result<ConfigurationItem, CodecError>) {
        let scope_uri = get_optional::<String>(members, "scopeUri");
        let section = get_optional::<String>(members, "section");
        if let Err(error) = scope_uri {
            Err(error)
        } else if let Err(error) = section {
            Err(error)
        } else {
            Ok(
                ConfigurationItem {
                    scope_uri: scope_uri.unwrap(),
                    section: section.unwrap(),
                },
            )
        }
    }
}

impl ConfigurationItem {
    /// Every value comes back unchanged from the document that stands for it.
    pub proof fn lemma_survives(value: ConfigurationItemModel)
        ensures
            survives::<ConfigurationItem>(value),
    {
        broadcast use group_lookup;

        reveal(optional);
        reveal_strlit("scopeUri");
        reveal_strlit("section");
    }
}

#[derive(Debug, PartialEq, Clone)]
pub struct DidChangeConfigurationParams {
    /// The actual changed settings
    pub settings: Json,
}

/// What a [`DidChangeConfigurationParams`] stands for.
pub struct DidChangeConfigurationParamsModel {
    pub settings: JsonValue,
}

impl DeepView for DidChangeConfigurationParams {
    type V = DidChangeConfigurationParamsModel;

    open spec fn deep_view(&self) -> DidChangeConfigurationParamsModel {
        DidChangeConfigurationParamsModel {
            settings: self.settings.deep_view(),
        }
    }
}

impl Record for DidChangeConfigurationParams {
    open spec fn members(before: Seq<Member>, value: DidChangeConfigurationParamsModel) -> Seq<Member> {
        before + field::<Json>("settings"@, value.settings)
    }

    open spec fn read(members: Seq<Member>) -> Result<DidChangeConfigurationParamsModel, CodecError> {
        let settings = required::<Json>(members, "settings"@);
        if settings is Err {
            Err(settings->Err_0)
        } else {
            Ok(
                DidChangeConfigurationParamsModel {
                    settings: settings->Ok_0,
                },
            )
        }
    }

    fn write(&self, members: &mut Vec<(String, Json)>) {
        put(members, "settings", &self.settings);
    }

    fn scan(members: &Vec<(String, Json)>) -> (result: Result<DidChangeConfigurationParams, CodecError>) {
        let settings = get::<Json>(members, "settings");
        if let Err(error) = settings {
            Err(error)
        } else {
            Ok(
                DidChangeConfigurationParams {
                    settings: settings.unwrap(),
                },
            )
        }
    }
}

impl DidChangeConfigurationParams {
    /// Every value comes back unchanged from the document that stands for it.
    pub proof fn lemma_survives(value: DidChangeConfigurationParamsModel)
        ensures
            survives::<DidChangeConfigurationParams>(value),
    {
        broadcast use group_lookup;

        reveal(required);
        reveal_strlit("settings");
    }
}

} // verus!
