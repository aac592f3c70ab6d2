//! The client: one provider, and the endpoint facades over it.
use vstd::prelude::*;

use crate::chat::Chat;
use crate::completions::Completions;
use crate::http::SimpleHttpClient;
use crate::providers::config::{sanitized, Config};
use crate::providers::{OpenAIConfig, OpenAIProvider, Provider, RawProvider};

verus! {

/// A client over one provider and the transport bound to its
/// configuration.  The transport plans and reads calls; the HTTP engine
/// that carries them lives with the hosting application.
pub struct Client<P: Provider> {
    pub provider: P,
    pub http_client: SimpleHttpClient<P::Config>,
}

impl<P: Provider> Client<P> {
    /// A client over the given provider, with the transport bound to a
    /// copy of the provider's configuration.
    pub fn with_provider(provider: P) -> (r: Self)
        ensures
            r.provider == provider,
    {
        let config = provider.config().clone();
        Client { provider, http_client: SimpleHttpClient::new(config) }
    }

    /// A client from its two parts.
    pub fn with_args(provider: P, http_client: SimpleHttpClient<P::Config>) -> (r: Self)
        ensures
            r.provider == provider,
            r.http_client == http_client,
    {
        Client { provider, http_client }
    }

    /// The provider itself.
    pub fn provider(&self) -> (r: &P)
        ensures
            r == &self.provider,
    {
        &self.provider
    }

    /// The transport itself.
    pub fn http_client(&self) -> (r: &SimpleHttpClient<P::Config>)
        ensures
            r == &self.http_client,
    {
        &self.http_client
    }

    /// The completions facade.
    pub fn completions(&self) -> (r: Completions<'_, P>)
        ensures
            r.client == self,
    {
        Completions::new(self)
    }

    /// The chat facade.
    pub fn chat(&self) -> (r: Chat<'_, P>)
        ensures
            r.client == self,
    {
        Chat::new(self)
    }
}

impl Client<OpenAIProvider> {
    /// A typed client over the stock configuration.
    pub fn new() -> (r: Self)
        ensures
            r.provider.config.cfg().base_url == sanitized("https://api.openai.com/v1"@),
            r.provider.config.cfg().api_key is None,
            r.http_client.config.cfg() == r.provider.config.cfg(),
    {
        let provider = OpenAIProvider::default();
        let config = provider.config.clone();
        Client { provider, http_client: SimpleHttpClient::new(config) }
    }

    /// A typed client against the given base URL with the given
    /// credential.
    pub fn with_auth(base_url: &str, api_key: Option<String>) -> (r: Self)
        ensures
            r.provider.config.cfg().base_url == sanitized(base_url@),
            r.provider.config.cfg().api_key == (match api_key {
                Some(k) => Some::<Seq<char>>(k@),
                None => None::<Seq<char>>,
            }),
    {
        let config = OpenAIConfig::new(base_url, api_key);
        let transport_config = config.clone();
        Client {
            provider: OpenAIProvider::new(config),
            http_client: SimpleHttpClient::new(transport_config),
        }
    }
}

impl Default for Client<OpenAIProvider> {
    /// The typed client over the stock configuration.
    fn default() -> (r: Self)
        ensures
            r.provider.config.cfg().base_url == sanitized("https://api.openai.com/v1"@),
            r.provider.config.cfg().api_key is None,
    {
        Client::new()
    }
}

impl Client<RawProvider> {
    /// A passthrough client over the stock configuration.
    pub fn raw() -> (r: Self)
        ensures
            r.provider.config.cfg().base_url == sanitized("https://api.openai.com/v1"@),
            r.provider.config.cfg().api_key is None,
            r.http_client.config.cfg() == r.provider.config.cfg(),
    {
        let provider = RawProvider::default();
        let config = provider.config.clone();
        Client { provider, http_client: SimpleHttpClient::new(config) }
    }

    /// A passthrough client against the given base URL with the given
    /// credential.
    pub fn with_auth_raw(base_url: &str, api_key: Option<String>) -> (r: Self)
        ensures
            r.provider.config.cfg().base_url == sanitized(base_url@),
            r.provider.config.cfg().api_key == (match api_key {
                Some(k) => Some::<Seq<char>>(k@),
                None => None::<Seq<char>>,
            }),
    {
        let config = OpenAIConfig::new(base_url, api_key);
        let transport_config = config.clone();
        Client {
            provider: RawProvider::new(config),
            http_client: SimpleHttpClient::new(transport_config),
        }
    }
}

} // verus!
