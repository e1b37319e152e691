//! The composed generation request: the prompt text plus fixed,
//! deterministic sampling parameters, so that output variation across
//! retries is driven only by input differences, never by sampling.

use vstd::prelude::*;

verus! {

/// One request to the generation service.
pub struct GenerationRequest {
    /// The fully composed prompt text.
    pub prompt: String,
    /// The output length budget, in tokens.
    pub max_tokens: usize,
    /// Sampling temperature; zero for deterministic output.
    pub temperature: u8,
    /// Nucleus sampling bound; one leaves the distribution whole.
    pub top_p: u8,
    /// Presence penalty; zero.
    pub presence_penalty: u8,
    /// Frequency penalty; zero.
    pub frequency_penalty: u8,
}

impl GenerationRequest {
    /// The generation parameters are deterministic: temperature zero,
    /// nucleus bound one, no penalties.
    pub open spec fn deterministic(&self) -> bool {
        self.temperature == 0 && self.top_p == 1 && self.presence_penalty == 0
            && self.frequency_penalty == 0
    }

    /// Composes a request; the sampling parameters are always the
    /// fixed deterministic ones.
    pub fn new(prompt: String, max_tokens: usize) -> (r: GenerationRequest)
        ensures
            r.deterministic(),
            r.prompt@ == prompt@,
            r.max_tokens == max_tokens,
    {
        GenerationRequest {
            prompt,
            max_tokens,
            temperature: 0,
            top_p: 1,
            presence_penalty: 0,
            frequency_penalty: 0,
        }
    }

    /// The model the service is asked for.
    pub fn model(&self) -> (r: String)
        ensures
            r@ == "text-davinci-003"@,
    {
        String::from_str("text-davinci-003")
    }
}

} // verus!
