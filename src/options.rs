//! Options sent with every request of a chat session.
use vstd::prelude::*;

verus! {

/// The options of a session. The sampling temperature is kept as the bit
/// pattern of an IEEE-754 single, so that it is forwarded exactly as given.
#[derive(Debug, PartialEq, Eq)]
pub struct ChatRequestOptions {
    pub system: Option<String>,
    pub seed: Option<u32>,
    pub save_messages: bool,
    pub temperature_bits: u32,
}

impl Default for ChatRequestOptions {
    fn default() -> (r: ChatRequestOptions)
        ensures
            r.system is None,
            r.seed is None,
            !r.save_messages,
            r.temperature_bits == 0,
    {
        ChatRequestOptions::new()
    }
}

impl ChatRequestOptions {
    /// No system prompt, no seed, replies not kept, temperature zero.
    pub fn new() -> (r: ChatRequestOptions)
        ensures
            r.system is None,
            r.seed is None,
            !r.save_messages,
            r.temperature_bits == 0,
    {
        ChatRequestOptions { system: None, seed: None, save_messages: false, temperature_bits: 0 }
    }

    pub fn seed(self, seed: u32) -> (r: ChatRequestOptions)
        ensures
            r.seed == Some(seed),
            r.system == self.system,
            r.save_messages == self.save_messages,
            r.temperature_bits == self.temperature_bits,
    {
        ChatRequestOptions { seed: Some(seed), ..self }
    }

    pub fn system(self, system: &str) -> (r: ChatRequestOptions)
        ensures
            r.system is Some && r.system.unwrap()@ == system@,
            r.seed == self.seed,
            r.save_messages == self.save_messages,
            r.temperature_bits == self.temperature_bits,
    {
        ChatRequestOptions { system: Some(String::from_str(system)), ..self }
    }

    /// Keeps every reply in the transcript.
    pub fn save_messages(self) -> (r: ChatRequestOptions)
        ensures
            r.save_messages,
            r.system == self.system,
            r.seed == self.seed,
            r.temperature_bits == self.temperature_bits,
    {
        ChatRequestOptions { save_messages: true, ..self }
    }

    /// Sets the temperature, given as the bits of an IEEE-754 single.
    pub fn temperature(self, bits: u32) -> (r: ChatRequestOptions)
        ensures
            r.temperature_bits == bits,
            r.system == self.system,
            r.seed == self.seed,
            r.save_messages == self.save_messages,
    {
        ChatRequestOptions { temperature_bits: bits, ..self }
    }
}

} // verus!
