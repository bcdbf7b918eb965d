//! Which live model plays the agents, where one does.

use crate::text;
use vstd::prelude::*;

verus! {

/// Who provides a live model.
pub enum Provider {
    OpenAi,
    Anthropic,
}

/// The provider for a request by name, and for none the one whose key is there:
/// OpenAI where its key is, and else Anthropic. Other names have none.
pub open spec fn provider_for(requested: Option<Seq<char>>, has_openai_key: bool) -> Option<
    Provider,
> {
    match requested {
        Some(name) => if name == "openai"@ {
            Some(Provider::OpenAi)
        } else if name == "anthropic"@ {
            Some(Provider::Anthropic)
        } else {
            None
        },
        None => Some(
            if has_openai_key {
                Provider::OpenAi
            } else {
                Provider::Anthropic
            },
        ),
    }
}

/// The characters of an optional text.
pub open spec fn optional_view(text: Option<String>) -> Option<Seq<char>> {
    match text {
        Some(text) => Some(text@),
        None => None,
    }
}

/// Selects the provider, and says of a name that has none what it was.
pub fn select_provider(requested: &Option<String>, has_openai_key: bool) -> (r: Result<
    Provider,
    String,
>)
    ensures
        match provider_for(optional_view(*requested), has_openai_key) {
            Some(provider) => r == Ok::<Provider, String>(provider),
            None => r is Err && r->Err_0@ == "unknown LLM_PROVIDER: "@ + requested->Some_0@,
        },
{
    match requested {
        Some(name) => if text::same(name.as_str(), "openai") {
            Ok(Provider::OpenAi)
        } else if text::same(name.as_str(), "anthropic") {
            Ok(Provider::Anthropic)
        } else {
            let mut message = "unknown LLM_PROVIDER: ".to_owned();
            message.append(name.as_str());
            Err(message)
        },
        None => if has_openai_key {
            Ok(Provider::OpenAi)
        } else {
            Ok(Provider::Anthropic)
        },
    }
}

/// The model of a provider: the one that was asked for, or else its default. The
/// default of Anthropic is a setting of the program that runs the agents.
pub open spec fn model_for(
    provider: Provider,
    wanted: Option<Seq<char>>,
    anthropic_default: Seq<char>,
) -> Seq<char> {
    match wanted {
        Some(name) => name,
        None => match provider {
            Provider::OpenAi => "gpt-4o"@,
            Provider::Anthropic => anthropic_default,
        },
    }
}

/// Names the model of a provider.
pub fn model_name(provider: &Provider, wanted: &Option<String>, anthropic_default: &str) -> (r:
    String)
    ensures
        r@ == model_for(*provider, optional_view(*wanted), anthropic_default@),
{
    match wanted {
        Some(name) => name.clone(),
        None => match provider {
            Provider::OpenAi => "gpt-4o".to_owned(),
            Provider::Anthropic => anthropic_default.to_owned(),
        },
    }
}

}
