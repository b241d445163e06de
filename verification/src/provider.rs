//! The model providers the agent can talk to.
use vstd::prelude::*;
use vstd::string::StringExecFns;
use crate::text::{lowered, str_eq, to_lowercase};

verus! {

broadcast use vstd::string::group_string_axioms;

/// A provider of chat models.
#[derive(Debug, Clone, Copy, PartialEq, Eq, Structural)]
pub enum ModelProvider {
    Mock,
    DeepSeek,
    Glm,
    Qwen,
}

/// The provider that a lowercase name selects.
pub open spec fn provider_named(name: Seq<char>) -> Option<ModelProvider> {
    if name == "mock"@ {
        Some(ModelProvider::Mock)
    } else if name == "deepseek"@ {
        Some(ModelProvider::DeepSeek)
    } else if name == "glm"@ {
        Some(ModelProvider::Glm)
    } else if name == "qwen"@ {
        Some(ModelProvider::Qwen)
    } else {
        None
    }
}

/// The name under which a provider appears in messages.
pub open spec fn provider_label(p: ModelProvider) -> Seq<char> {
    match p {
        ModelProvider::Mock => "Mock"@,
        ModelProvider::DeepSeek => "DeepSeek"@,
        ModelProvider::Glm => "Glm"@,
        ModelProvider::Qwen => "Qwen"@,
    }
}

/// The lowercase name that selects a provider.
pub open spec fn provider_name(p: ModelProvider) -> Seq<char> {
    match p {
        ModelProvider::Mock => "mock"@,
        ModelProvider::DeepSeek => "deepseek"@,
        ModelProvider::Glm => "glm"@,
        ModelProvider::Qwen => "qwen"@,
    }
}

/// Every provider is selected by its own name, and no two providers share a name.
pub proof fn lemma_provider_names(p: ModelProvider, q: ModelProvider)
    ensures
        provider_named(provider_name(p)) == Some(p),
        p != q ==> provider_name(p) != provider_name(q),
{
    reveal_strlit("mock");
    reveal_strlit("deepseek");
    reveal_strlit("glm");
    reveal_strlit("qwen");
    assert("mock"@.len() == 4 && "deepseek"@.len() == 8 && "glm"@.len() == 3);
    assert("qwen"@.len() == 4 && "mock"@[0] != "qwen"@[0]);
    assert("mock"@ != "deepseek"@);
    assert("mock"@ != "glm"@);
    assert("mock"@ != "qwen"@);
    assert("deepseek"@ != "glm"@);
    assert("deepseek"@ != "qwen"@);
    assert("glm"@ != "qwen"@);
}

impl ModelProvider {
    /// The name under which the provider appears in messages.
    pub fn label(&self) -> (r: &'static str)
        ensures
            r@ == provider_label(*self),
    {
        match self {
            ModelProvider::Mock => "Mock",
            ModelProvider::DeepSeek => "DeepSeek",
            ModelProvider::Glm => "Glm",
            ModelProvider::Qwen => "Qwen",
        }
    }
}

/// A provider name that names no known provider.
#[derive(Debug)]
pub struct UnknownProvider {
    /// The name, lowercased.
    pub name: String,
}

impl UnknownProvider {
    /// The message: `Unknown model provider: ` and the lowercased name.
    pub fn message(&self) -> (r: String)
        ensures
            r@ == "Unknown model provider: "@ + self.name@,
    {
        let mut r = String::from_str("Unknown model provider: ");
        r.append(self.name.as_str());
        r
    }
}

/// Selects the provider that a lowercase name names; the error keeps the name.
pub fn provider_from_lowercase(name: &str) -> (r: Result<ModelProvider, UnknownProvider>)
    ensures
        match r {
            Ok(p) => provider_named(name@) == Some(p),
            Err(e) => provider_named(name@) is None && e.name@ == name@,
        },
{
    if str_eq(name, "mock") {
        Ok(ModelProvider::Mock)
    } else if str_eq(name, "deepseek") {
        Ok(ModelProvider::DeepSeek)
    } else if str_eq(name, "glm") {
        Ok(ModelProvider::Glm)
    } else if str_eq(name, "qwen") {
        Ok(ModelProvider::Qwen)
    } else {
        Err(UnknownProvider { name: String::from_str(name) })
    }
}

/// Parses a provider name, ignoring case.
pub fn parse_provider(s: &str) -> (r: Result<ModelProvider, UnknownProvider>)
    ensures
        match r {
            Ok(p) => provider_named(lowered(s@)) == Some(p),
            Err(e) => provider_named(lowered(s@)) is None && e.name@ == lowered(s@),
        },
{
    let lower = to_lowercase(s);
    provider_from_lowercase(lower.as_str())
}

impl std::str::FromStr for ModelProvider {
    type Err = UnknownProvider;

    fn from_str(s: &str) -> (r: Result<Self, Self::Err>)
        ensures
            match r {
                Ok(p) => provider_named(lowered(s@)) == Some(p),
                Err(e) => provider_named(lowered(s@)) is None && e.name@ == lowered(s@),
            },
    {
        parse_provider(s)
    }
}

} // verus!
