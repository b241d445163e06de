//! The state the server shares between requests.
use std::sync::Arc;
use vstd::prelude::*;
use crate::config::AppConfig;
use crate::llm::{
    client_available, client_error, client_for, provider_config_of, LlmError, LlmService,
    ModelRegistry,
};

verus! {

/// The configuration, the model registry and the model clients of the server.
#[derive(Debug, Clone)]
pub struct AppState {
    pub config: Arc<AppConfig>,
    pub model_registry: Arc<ModelRegistry>,
    pub llm_service: Arc<LlmService>,
}

impl AppState {
    /// Builds the state of a configuration; fails when the main or the vision model's
    /// client cannot be set up (the main model is checked first).
    pub fn new(config: AppConfig) -> (r: Result<Self, LlmError>)
        ensures
            ({
                let c = config.model;
                let main = provider_config_of(c, c.main_provider);
                let vision = provider_config_of(c, c.vision_provider);
                &&& r is Ok <==> client_available(c.main_provider, main) && client_available(
                    c.vision_provider,
                    vision,
                )
                &&& r matches Ok(s) ==> *s.config == config && s.model_registry.config_spec()
                    == c && client_for(s.llm_service.main_spec(), c.main_provider, main)
                    && client_for(s.llm_service.vision_spec(), c.vision_provider, vision)
                &&& r matches Err(e) ==> if !client_available(c.main_provider, main) {
                    e == client_error(c.main_provider, main)
                } else {
                    e == client_error(c.vision_provider, vision)
                }
            }),
    {
        let model_registry = ModelRegistry::new(config.model.clone());
        let llm_service = LlmService::from_registry(&model_registry)?;
        Ok(
            AppState {
                config: Arc::new(config),
                model_registry: Arc::new(model_registry),
                llm_service: Arc::new(llm_service),
            },
        )
    }
}

} // verus!
