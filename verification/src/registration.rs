//! Registration of capabilities after initialization.

use crate::basic::{DocumentFilter, DocumentFilterModel};
use crate::codec::{
    Codec, CodecError, field, get, get_optional, group_lookup, lemma_sequence_round_trip, Member,
    nullable_field, optional, optional_field, put, put_nullable, put_optional, Record, required,
    survives,
};
use crate::json::{Json, JsonValue};
use vstd::prelude::*;

verus! {

/// General parameters to to register for a capability.
#[derive(Debug, PartialEq, Clone)]
pub struct Registration {
    /// The id used to register the request. The id can be used to deregister
    /// the request again.
    pub id: String,
    /// The method / capability to register for.
    pub method: String,
    /// Options necessary for the registration.
    pub register_options: Option<Json>,
}

/// What a [`Registration`] stands for.
pub struct RegistrationModel {
    pub id: Seq<char>,
    pub method: Seq<char>,
    pub register_options: Option<JsonValue>,
}

impl DeepView for Registration {
    type V = RegistrationModel;

    open spec fn deep_view(&self) -> RegistrationModel {
        RegistrationModel {
            id: self.id.deep_view(),
            method: self.method.deep_view(),
            register_options: self.register_options.deep_view(),
        }
    }
}

impl Record for Registration {
    open spec fn members(before: Seq<Member>, value: RegistrationModel) -> Seq<Member> {
        before + field::<String>("id"@, value.id)
            + field::<String>("method"@, value.method)
            + optional_field::<Json>("registerOptions"@, value.register_options)
    }

    open spec fn read(members: Seq<Member>) -> Result<RegistrationModel, CodecError> {
        let id = required::<String>(members, "id"@);
        let method = required::<String>(members, "method"@);
        let register_options = optional::<Json>(members, "registerOptions"@);
        if id is Err {
            Err(id->Err_0)
        } else if method is Err {
            Err(method->Err_0)
        } else if register_options is Err {
            Err(register_options->Err_0)
        } else {
            Ok(
                RegistrationModel {
                    id: id->Ok_0,
                    method: method->Ok_0,
                    register_options: register_options->Ok_0,
                },
            )
        }
    }

    fn write(&self, members: &mut Vec<(String, Json)>) {
        put(members, "id", &self.id);
        put(members, "method", &self.method);
        put_optional(members, "registerOptions", &self.register_options);
    }

    fn scan(members: &Vec<(String, Json)>) -> (result: Result<Registration, CodecError>) {
        let id = get::<String>(members, "id");
        let method = get::<String>(members, "method");
        let register_options = get_optional::<Json>(members, "registerOptions");
        if let Err(error) = id {
            Err(error)
        } else if let Err(error) = method {
            Err(error)
        } else if let Err(error) = register_options {
            Err(error)
        } else {
            Ok(
                Registration {
                    id: id.unwrap(),
                    method: method.unwrap(),
                    register_options: register_options.unwrap(),
                },
            )
        }
    }
}

impl Registration {
    /// A value comes back unchanged from the document that stands for it
    /// where its fields meet what is asked of them here.
    pub proof fn lemma_round_trip(value: RegistrationModel)
        requires
            value.register_options != Some(JsonValue::Null),
        ensures
            survives::<Registration>(value),
    {
        broadcast use group_lookup;

        reveal(required);
        reveal(optional);
        reveal_strlit("id");
        reveal_strlit("method");
        reveal_strlit("registerOptions");
    }
}

#[derive(Debug, PartialEq, Clone)]
pub struct RegistrationParams {
    pub registrations: Vec<Registration>,
}

/// What a [`RegistrationParams`] stands for.
pub struct RegistrationParamsModel {
    pub registrations: Seq<RegistrationModel>,
}

impl DeepView for RegistrationParams {
    type V = RegistrationParamsModel;

    open spec fn deep_view(&self) -> RegistrationParamsModel {
        RegistrationParamsModel {
            registrations: self.registrations.deep_view(),
        }
    }
}

impl Record for RegistrationParams {
    open spec fn members(before: Seq<Member>, value: RegistrationParamsModel) -> Seq<Member> {
        before + field::<Vec<Registration>>("registrations"@, value.registrations)
    }

    open spec fn read(members: Seq<Member>) -> Result<RegistrationParamsModel, CodecError> {
        let registrations = required::<Vec<Registration>>(members, "registrations"@);
        if registrations is Err {
            Err(registrations->Err_0)
        } else {
            Ok(
                RegistrationParamsModel {
                    registrations: registrations->Ok_0,
                },
            )
        }
    }

    fn write(&self, members: &mut Vec<(String, Json)>) {
        put(members, "registrations", &self.registrations);
    }

    fn scan(members: &Vec<(String, Json)>) -> (result: Result<RegistrationParams, CodecError>) {
        let registrations = get::<Vec<Registration>>(members, "registrations");
        if let Err(error) = registrations {
            Err(error)
        } else {
            Ok(
                RegistrationParams {
                    registrations: registrations.unwrap(),
                },
            )
        }
    }
}

impl RegistrationParams {
    /// A value comes back unchanged from the document that stands for it
    /// where its fields meet what is asked of them here.
    pub proof fn lemma_round_trip(value: RegistrationParamsModel)
        requires
            survives::<Vec<Registration>>(value.registrations),
        ensures
            survives::<RegistrationParams>(value),
    {
        broadcast use group_lookup;

        reveal(required);
        reveal_strlit("registrations");
    }
}

/// Since most of the registration options require to specify a document selector there is a base
/// interface that can be used.
#[derive(Debug, PartialEq, Eq, Clone, Default)]
pub struct TextDocumentRegistrationOptions {
    /// A document selector to identify the scope of the registration. If set to null
    /// the document selector provided on the client side will be used.
    pub document_selector: Option<Vec<DocumentFilter>>,
}

/// What a [`TextDocumentRegistrationOptions`] stands for.
pub struct TextDocumentRegistrationOptionsModel {
    pub document_selector: Option<Seq<DocumentFilterModel>>,
}

impl DeepView for TextDocumentRegistrationOptions {
    type V = TextDocumentRegistrationOptionsModel;

    open spec fn deep_view(&self) -> TextDocumentRegistrationOptionsModel {
        TextDocumentRegistrationOptionsModel {
            document_selector: self.document_selector.deep_view(),
        }
    }
}

impl Record for TextDocumentRegistrationOptions {
    open spec fn members(before: Seq<Member>, value: TextDocumentRegistrationOptionsModel) -> Seq<Member> {
        before + nullable_field::<Vec<DocumentFilter>>("documentSelector"@, value.document_selector)
    }

    open spec fn read(members: Seq<Member>) -> Result<TextDocumentRegistrationOptionsModel, CodecError> {
        let document_selector = optional::<Vec<DocumentFilter>>(members, "documentSelector"@);
        if document_selector is Err {
            Err(document_selector->Err_0)
        } else {
            Ok(
                TextDocumentRegistrationOptionsModel {
                    document_selector: document_selector->Ok_0,
                },
            )
        }
    }

    fn write(&self, members: &mut Vec<(String, Json)>) {
        put_nullable(members, "documentSelector", &self.document_selector);
    }

    fn scan(members: &Vec<(String, Json)>) -> (result: Result<TextDocumentRegistrationOptions, CodecError>) {
        let document_selector = get_optional::<Vec<DocumentFilter>>(members, "documentSelector");
        if let Err(error) = document_selector {
            Err(error)
        } else {
            Ok(
                TextDocumentRegistrationOptions {
                    document_selector: document_selector.unwrap(),
                },
            )
        }
    }
}

impl TextDocumentRegistrationOptions {
    /// Every value comes back unchanged from the document that stands for it.
    pub proof fn lemma_survives(value: TextDocumentRegistrationOptionsModel)
        ensures
            survives::<TextDocumentRegistrationOptions>(value),
    {
        broadcast use group_lookup;

        reveal(optional);
        reveal_strlit("documentSelector");
        if let Some(inner) = value.document_selector {
            assert forall|i: int| 0 <= i < inner.len() implies survives::<DocumentFilter>(
                #[trigger] inner[i],
            ) by {
                DocumentFilter::lemma_survives(inner[i]);
            }
            lemma_sequence_round_trip::<DocumentFilter>(inner);
        }
    }
}

#[derive(Debug, PartialEq, Eq, Clone, Default)]
pub struct StaticRegistrationOptions {
    pub id: Option<String>,
}

/// What a [`StaticRegistrationOptions`] stands for.
pub struct StaticRegistrationOptionsModel {
    pub id: Option<Seq<char>>,
}

impl DeepView for StaticRegistrationOptions {
    type V = StaticRegistrationOptionsModel;

    open spec fn deep_view(&self) -> StaticRegistrationOptionsModel {
        StaticRegistrationOptionsModel {
            id: self.id.deep_view(),
        }
    }
}

impl Record for StaticRegistrationOptions {
    open spec fn members(before: Seq<Member>, value: StaticRegistrationOptionsModel) -> Seq<Member> {
        before + optional_field::<String>("id"@, value.id)
    }

    open spec fn read(members: Seq<Member>) -> Result<StaticRegistrationOptionsModel, CodecError> {
        let id = optional::<String>(members, "id"@);
        if id is Err {
            Err(id->Err_0)
        } else {
            Ok(
                StaticRegistrationOptionsModel {
                    id: id->Ok_0,
                },
            )
        }
    }

    fn write(&self, members: &mut Vec<(String, Json)>) {
        put_optional(members, "id", &self.id);
    }

    fn scan(members: &Vec<(String, Json)>) -> (result: Result<StaticRegistrationOptions, CodecError>) {
        let id = get_optional::<String>(members, "id");
        if let Err(error) = id {
            Err(error)
        } else {
            Ok(
                StaticRegistrationOptions {
                    id: id.unwrap(),
                },
            )
        }
    }
}

impl StaticRegistrationOptions {
    /// Every value comes back unchanged from the document that stands for it.
    pub proof fn lemma_survives(value: StaticRegistrationOptionsModel)
        ensures
            survives::<StaticRegistrationOptions>(value),
    {
        broadcast use group_lookup;

        reveal(optional);
        reveal_strlit("id");
    }
}

#[derive(Debug, PartialEq, Eq, Clone)]
pub struct StaticTextDocumentRegistrationOptions {
    /// A document selector to identify the scope of the registration. If set to null
    /// the document selector provided on the client side will be used.
    pub document_selector: Option<Vec<DocumentFilter>>,
    pub id: Option<String>,
}

/// What a [`StaticTextDocumentRegistrationOptions`] stands for.
pub struct StaticTextDocumentRegistrationOptionsModel {
    pub document_selector: Option<Seq<DocumentFilterModel>>,
    pub id: Option<Seq<char>>,
}

impl DeepView for StaticTextDocumentRegistrationOptions {
    type V = StaticTextDocumentRegistrationOptionsModel;

    open spec fn deep_view(&self) -> StaticTextDocumentRegistrationOptionsModel {
        StaticTextDocumentRegistrationOptionsModel {
            document_selector: self.document_selector.deep_view(),
            id: self.id.deep_view(),
        }
    }
}

impl Record for StaticTextDocumentRegistrationOptions {
    open spec fn members(before: Seq<Member>, value: StaticTextDocumentRegistrationOptionsModel) -> Seq<Member> {
        before + nullable_field::<Vec<DocumentFilter>>("documentSelector"@, value.document_selector)
            + optional_field::<String>("id"@, value.id)
    }

    open spec fn read(members: Seq<Member>) -> Result<StaticTextDocumentRegistrationOptionsModel, CodecError> {
        let document_selector = optional::<Vec<DocumentFilter>>(members, "documentSelector"@);
        let id = optional::<String>(members, "id"@);
        if document_selector is Err {
            Err(document_selector->Err_0)
        } else if id is Err {
            Err(id->Err_0)
        } else {
            Ok(
                StaticTextDocumentRegistrationOptionsModel {
                    document_selector: document_selector->Ok_0,
                    id: id->Ok_0,
                },
            )
        }
    }

    fn write(&self, members: &mut Vec<(String, Json)>) {
        put_nullable(members, "documentSelector", &self.document_selector);
        put_optional(members, "id", &self.id);
    }

    fn scan(members: &Vec<(String, Json)>) -> (result: Result<StaticTextDocumentRegistrationOptions, CodecError>) {
        let document_selector = get_optional::<Vec<DocumentFilter>>(members, "documentSelector");
        let id = get_optional::<String>(members, "id");
        if let Err(error) = document_selector {
            Err(error)
        } else if let Err(error) = id {
            Err(error)
        } else {
            Ok(
                StaticTextDocumentRegistrationOptions {
                    document_selector: document_selector.unwrap(),
                    id: id.unwrap(),
                },
            )
        }
    }
}

impl StaticTextDocumentRegistrationOptions {
    /// Every value comes back unchanged from the document that stands for it.
    pub proof fn lemma_survives(value: StaticTextDocumentRegistrationOptionsModel)
        ensures
            survives::<StaticTextDocumentRegistrationOptions>(value),
    {
        broadcast use group_lookup;

        reveal(optional);
        reveal_strlit("documentSelector");
        reveal_strlit("id");
        if let Some(inner) = value.document_selector {
            assert forall|i: int| 0 <= i < inner.len() implies survives::<DocumentFilter>(
                #[trigger] inner[i],
            ) by {
                DocumentFilter::lemma_survives(inner[i]);
            }
            lemma_sequence_round_trip::<DocumentFilter>(inner);
        }
    }
}

#[derive(Debug, PartialEq, Eq, Structural, Clone)]
pub struct ColorProviderOptions {}

impl DeepView for ColorProviderOptions {
    type V = ColorProviderOptions;

    open spec fn deep_view(&self) -> ColorProviderOptions {
        ColorProviderOptions {  }
    }
}

impl Record for ColorProviderOptions {
    open spec fn members(before: Seq<Member>, value: ColorProviderOptions) -> Seq<Member> {
        before
    }

    open spec fn read(members: Seq<Member>) -> Result<ColorProviderOptions, CodecError> {
        Ok(ColorProviderOptions {  })
    }

    fn write(&self, members: &mut Vec<(String, Json)>) {
    }

    fn scan(members: &Vec<(String, Json)>) -> (result: Result<ColorProviderOptions, CodecError>) {
        Ok(ColorProviderOptions {  })
    }
}

impl ColorProviderOptions {
    /// Every value comes back unchanged from the document that stands for it.
    pub proof fn lemma_survives(value: ColorProviderOptions)
        ensures
            survives::<ColorProviderOptions>(value),
    {
    }
}

#[derive(Debug, PartialEq, Eq, Clone)]
pub struct StaticTextDocumentColorProviderOptions {
    /// A document selector to identify the scope of the registration. If set to null
    /// the document selector provided on the client side will be used.
    pub document_selector: Option<Vec<DocumentFilter>>,
    pub id: Option<String>,
}

/// What a [`StaticTextDocumentColorProviderOptions`] stands for.
pub struct StaticTextDocumentColorProviderOptionsModel {
    pub document_selector: Option<Seq<DocumentFilterModel>>,
    pub id: Option<Seq<char>>,
}

impl DeepView for StaticTextDocumentColorProviderOptions {
    type V = StaticTextDocumentColorProviderOptionsModel;

    open spec fn deep_view(&self) -> StaticTextDocumentColorProviderOptionsModel {
        StaticTextDocumentColorProviderOptionsModel {
            document_selector: self.document_selector.deep_view(),
            id: self.id.deep_view(),
        }
    }
}

impl Record for StaticTextDocumentColorProviderOptions {
    open spec fn members(before: Seq<Member>, value: StaticTextDocumentColorProviderOptionsModel) -> Seq<Member> {
        before + nullable_field::<Vec<DocumentFilter>>("documentSelector"@, value.document_selector)
            + optional_field::<String>("id"@, value.id)
    }

    open spec fn read(members: Seq<Member>) -> Result<StaticTextDocumentColorProviderOptionsModel, CodecError> {
        let document_selector = optional::<Vec<DocumentFilter>>(members, "documentSelector"@);
        let id = optional::<String>(members, "id"@);
        if document_selector is Err {
            Err(document_selector->Err_0)
        } else if id is Err {
            Err(id->Err_0)
        } else {
            Ok(
                StaticTextDocumentColorProviderOptionsModel {
                    document_selector: document_selector->Ok_0,
                    id: id->Ok_0,
                },
            )
        }
    }

    fn write(&self, members: &mut Vec<(String, Json)>) {
        put_nullable(members, "documentSelector", &self.document_selector);
        put_optional(members, "id", &self.id);
    }

    fn scan(members: &Vec<(String, Json)>) -> (result: Result<StaticTextDocumentColorProviderOptions, CodecError>) {
        let document_selector = get_optional::<Vec<DocumentFilter>>(members, "documentSelector");
        let id = get_optional::<String>(members, "id");
        if let Err(error) = document_selector {
            Err(error)
        } else if let Err(error) = id {
            Err(error)
        } else {
            Ok(
                StaticTextDocumentColorProviderOptions {
                    document_selector: document_selector.unwrap(),
                    id: id.unwrap(),
                },
            )
        }
    }
}

impl StaticTextDocumentColorProviderOptions {
    /// Every value comes back unchanged from the document that stands for it.
    pub proof fn lemma_survives(value: StaticTextDocumentColorProviderOptionsModel)
        ensures
            survives::<StaticTextDocumentColorProviderOptions>(value),
    {
        broadcast use group_lookup;

        reveal(optional);
        reveal_strlit("documentSelector");
        reveal_strlit("id");
        if let Some(inner) = value.document_selector {
            assert forall|i: int| 0 <= i < inner.len() implies survives::<DocumentFilter>(
                #[trigger] inner[i],
            ) by {
                DocumentFilter::lemma_survives(inner[i]);
            }
            lemma_sequence_round_trip::<DocumentFilter>(inner);
        }
    }
}

/// General parameters to unregister a capability.
#[derive(Debug, PartialEq, Eq, Clone)]
pub struct Unregistration {
    /// The id used to unregister the request or notification. Usually an id
    /// provided during the register request.
    pub id: String,
    /// The method / capability to unregister for.
    pub method: String,
}

/// What a [`Unregistration`] stands for.
pub struct UnregistrationModel {
    pub id: Seq<char>,
    pub method: Seq<char>,
}

impl DeepView for Unregistration {
    type V = UnregistrationModel;

    open spec fn deep_view(&self) -> UnregistrationModel {
        UnregistrationModel {
            id: self.id.deep_view(),
            method: self.method.deep_view(),
        }
    }
}

impl Record for Unregistration {
    open spec fn members(before: Seq<Member>, value: UnregistrationModel) -> Seq<Member> {
        before + field::<String>("id"@, value.id)
            + field::<String>("method"@, value.method)
    }

    open spec fn read(members: Seq<Member>) -> Result<UnregistrationModel, CodecError> {
        let id = required::<String>(members, "id"@);
        let method = required::<String>(members, "method"@);
        if id is Err {
            Err(id->Err_0)
        } else if method is Err {
            Err(method->Err_0)
        } else {
            Ok(
                UnregistrationModel {
                    id: id->Ok_0,
                    method: method->Ok_0,
                },
            )
        }
    }

    fn write(&self, members: &mut Vec<(String, Json)>) {
        put(members, "id", &self.id);
        put(members, "method", &self.method);
    }

    fn scan(members: &Vec<(String, Json)>) -> (result: Result<Unregistration, CodecError>) {
        let id = get::<String>(members, "id");
        let method = get::<String>(members, "method");
        if let Err(error) = id {
            Err(error)
        } else if let Err(error) = method {
            Err(error)
        } else {
            Ok(
                Unregistration {
                    id: id.unwrap(),
                    method: method.unwrap(),
                },
            )
        }
    }
}

impl Unregistration {
    /// Every value comes back unchanged from the document that stands for it.
    pub proof fn lemma_survives(value: UnregistrationModel)
        ensures
            survives::<Unregistration>(value),
    {
        broadcast use group_lookup;

        reveal(required);
        reveal_strlit("id");
        reveal_strlit("method");
    }
}

#[derive(Debug, PartialEq, Eq, Clone)]
pub struct UnregistrationParams {
    pub unregisterations: Vec<Unregistration>,
}

/// What a [`UnregistrationParams`] stands for.
pub struct UnregistrationParamsModel {
    pub unregisterations: Seq<UnregistrationModel>,
}

impl DeepView for UnregistrationParams {
    type V = UnregistrationParamsModel;

    open spec fn deep_view(&self) -> UnregistrationParamsModel {
        UnregistrationParamsModel {
            unregisterations: self.unregisterations.deep_view(),
        }
    }
}

impl Record for UnregistrationParams {
    open spec fn members(before: Seq<Member>, value: UnregistrationParamsModel) -> Seq<Member> {
        before + field::<Vec<Unregistration>>("unregisterations"@, value.unregisterations)
    }

    open spec fn read(members: Seq<Member>) -> Result<UnregistrationParamsModel, CodecError> {
        let unregisterations = required::<Vec<Unregistration>>(members, "unregisterations"@);
        if unregisterations is Err {
            Err(unregisterations->Err_0)
        } else {
            Ok(
                UnregistrationParamsModel {
                    unregisterations: unregisterations->Ok_0,
                },
            )
        }
    }

    fn write(&self, members: &mut Vec<(String, Json)>) {
        put(members, "unregisterations", &self.unregisterations);
    }

    fn scan(members: &Vec<(String, Json)>) -> (result: Result<UnregistrationParams, CodecError>) {
        let unregisterations = get::<Vec<Unregistration>>(members, "unregisterations");
        if let Err(error) = unregisterations {
            Err(error)
        } else {
            Ok(
                UnregistrationParams {
                    unregisterations: unregisterations.unwrap(),
                },
            )
        }
    }
}

impl UnregistrationParams {
    /// Every value comes back unchanged from the document that stands for it.
    pub proof fn lemma_survives(value: UnregistrationParamsModel)
        ensures
            survives::<UnregistrationParams>(value),
    {
        broadcast use group_lookup;

        reveal(required);
        reveal_strlit("unregisterations");
        let list = value.unregisterations;
        assert forall|i: int| 0 <= i < list.len() implies survives::<Unregistration>(
            #[trigger] list[i],
        ) by {
            Unregistration::lemma_survives(list[i]);
        }
        lemma_sequence_round_trip::<Unregistration>(list);
    }
}

} // verus!
