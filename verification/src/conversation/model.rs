//! Which provider and model produced a model event.
use vstd::prelude::*;

verus! {

/// Names a model provider, such as `openai`.
#[derive(Clone, Debug, PartialEq, Eq, Hash)]
pub struct ProviderId(String);

impl View for ProviderId {
    type V = Seq<char>;

    closed spec fn view(&self) -> Seq<char> {
        self.0@
    }
}

impl ProviderId {
    /// The provider named `name`.
    pub fn new(name: String) -> (id: Self)
        ensures
            id@ == name@,
    {
        ProviderId(name)
    }

    /// The provider's name.
    pub fn as_str(&self) -> (name: &str)
        ensures
            name@ == self@,
    {
        self.0.as_str()
    }
}

/// Names a model of a provider, such as `gpt-5.6`.
#[derive(Clone, Debug, PartialEq, Eq, Hash)]
pub struct ModelId(String);

impl View for ModelId {
    type V = Seq<char>;

    closed spec fn view(&self) -> Seq<char> {
        self.0@
    }
}

impl ModelId {
    /// The model named `name`.
    pub fn new(name: String) -> (id: Self)
        ensures
            id@ == name@,
    {
        ModelId(name)
    }

    /// The model's name.
    pub fn as_str(&self) -> (name: &str)
        ensures
            name@ == self@,
    {
        self.0.as_str()
    }
}

/// The provider and model that produced a model event.
#[derive(Clone, Debug, PartialEq, Eq, Hash)]
pub struct ModelSource {
    pub provider: ProviderId,
    pub model: ModelId,
}

impl ModelSource {
    /// The source made of `provider` and `model`.
    pub fn new(provider: ProviderId, model: ModelId) -> (source: Self)
        ensures
            source.provider == provider,
            source.model == model,
    {
        ModelSource { provider, model }
    }

    /// The provider.
    pub fn provider(&self) -> (provider: &ProviderId)
        ensures
            *provider == self.provider,
    {
        &self.provider
    }

    /// The model.
    pub fn model(&self) -> (model: &ModelId)
        ensures
            *model == self.model,
    {
        &self.model
    }
}

} // verus!
