//! `uveddi init-local-ai`: setting up a local Ollama model.

use vstd::prelude::*;

verus! {

/// Probes and actions of a local AI installation.
pub trait LocalAiSetup {
    /// Ollama is installed.
    fn is_ollama_installed(&self) -> bool;
    /// The Ollama server answers.
    fn is_ollama_running(&self) -> bool;
    /// Downloads a model.
    fn download_model(&self, model: &str);
}

/// Arguments of `init-local-ai`.
#[derive(Debug, Clone)]
pub struct InitLocalAiCommand {
    /// Model to download and configure; `mistral:7b-instruct-v0.2-q4_K_M`
    /// by default.
    pub model: String,
}

/// How a setup run ended.
#[derive(Debug, Clone, Copy, PartialEq, Eq, Structural)]
pub enum LocalAiOutcome {
    /// Ollama is missing: the user is told how to install it.
    NotInstalled,
    /// Ollama is installed but not serving: the user is told to start it.
    NotRunning,
    /// The model download was requested.
    ModelRequested,
}

/// The outcome for what the probes found.
pub open spec fn local_ai_outcome(installed: bool, running: bool) -> LocalAiOutcome {
    if !installed {
        LocalAiOutcome::NotInstalled
    } else if !running {
        LocalAiOutcome::NotRunning
    } else {
        LocalAiOutcome::ModelRequested
    }
}

impl InitLocalAiCommand {
    /// Runs the setup: the model is downloaded only when Ollama is installed
    /// and running; the server is probed only when Ollama is installed.
    pub fn execute<T: LocalAiSetup>(&self, setup: &T) -> (r: LocalAiOutcome) {
        let installed = setup.is_ollama_installed();
        if !installed {
            return LocalAiOutcome::NotInstalled;
        }
        let running = setup.is_ollama_running();
        let outcome = Self::outcome(installed, running);
        if outcome == LocalAiOutcome::ModelRequested {
            setup.download_model(self.model.as_str());
        }
        outcome
    }

    /// The outcome for what the probes found.
    pub fn outcome(installed: bool, running: bool) -> (r: LocalAiOutcome)
        ensures
            r == local_ai_outcome(installed, running),
    {
        if !installed {
            LocalAiOutcome::NotInstalled
        } else if !running {
            LocalAiOutcome::NotRunning
        } else {
            LocalAiOutcome::ModelRequested
        }
    }
}

} // verus!
