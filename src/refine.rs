use vstd::prelude::*;

use crate::text::{concat3, same_text, trim_text, trimmed};

verus! {

/// Endpoint of the chat-completion service that refines transcriptions.
pub const REFINE_API_URL: &'static str = "https://api.deepseek.com/v1/chat/completions";

/// Model that the refinement requests name.
pub const REFINE_MODEL: &'static str = "deepseek-chat";

/// Upper bound on the tokens of a refinement reply.
pub const REFINE_MAX_TOKENS: u32 = 2048;

/// System prompt up to the language instruction.
pub const SYSTEM_PROMPT_HEAD: &'static str = r#"You are a text cleaner and formatter. Your job is to process raw speech transcription.

Rules:
1. Remove ALL filler words: "eee", "yyy", "um", "uh", "ehm", "taki", "no", "właśnie" (Polish), etc.
2. Fix punctuation - add periods, commas, question marks where appropriate
3. Fix capitalization - sentences should start with capital letters
4. Detect context and format appropriately:
   - If it sounds like an email: format with greeting and proper structure
   - If it sounds like a note: keep it concise, use bullet points if appropriate
   - If it sounds like chat message: keep it casual but clean
5. Adjust tone to be natural and professional
6. Do NOT add any explanations or meta-commentary
7. Output ONLY the cleaned text, nothing else
8. "#;

/// System prompt after the language instruction.
pub const SYSTEM_PROMPT_TAIL: &'static str = r#"

Examples:
Input: "eee więc yyy myślę że powinniśmy się spotkać jutro"
Output: "Myślę, że powinniśmy się spotkać jutro."

Input: "um so basically we need to finish the project by friday"
Output: "We need to finish the project by Friday."

Input: "cześć eee chciałem zapytać czy możesz mi przesłać ten raport"
Output: "Cześć, chciałem zapytać, czy możesz mi przesłać ten raport.""#;

/// The instruction on the reply's language for a language code.
pub open spec fn language_instruction(language: Seq<char>) -> Seq<char> {
    if language == "pl"@ {
        "Respond in Polish."@
    } else if language == "en"@ {
        "Respond in English."@
    } else {
        "Respond in the same language as the input."@
    }
}

/// The system prompt for a language code.
pub open spec fn system_prompt(language: Seq<char>) -> Seq<char> {
    SYSTEM_PROMPT_HEAD@ + language_instruction(language) + SYSTEM_PROMPT_TAIL@
}

/// The user message that carries the raw transcription.
pub open spec fn user_prompt(raw_text: Seq<char>) -> Seq<char> {
    "Input: "@ + raw_text + "\nOutput:"@
}

/// The value of the authorization header for a credential.
pub open spec fn bearer(api_key: Seq<char>) -> Seq<char> {
    "Bearer "@ + api_key
}

/// What a refinement request carries besides its fixed parameters.
pub struct RefinementRequest {
    pub authorization: String,
    pub system_prompt: String,
    pub user_prompt: String,
}

/// Client configuration for the remote text-refinement service: refinement
/// runs only when a credential is present.
pub struct DeepSeekClient {
    api_key: Option<String>,
}

impl View for DeepSeekClient {
    type V = Option<Seq<char>>;

    closed spec fn view(&self) -> Option<Seq<char>> {
        match self.api_key {
            Some(k) => Some(k@),
            None => None,
        }
    }
}

impl Default for DeepSeekClient {
    fn default() -> (r: Self)
        ensures
            r@ == None::<Seq<char>>,
    {
        DeepSeekClient::new()
    }
}

impl DeepSeekClient {
    /// A client without a credential.
    pub fn new() -> (r: Self)
        ensures
            r@ == None::<Seq<char>>,
    {
        DeepSeekClient { api_key: None }
    }

    /// Sets the credential.
    pub fn set_api_key(&mut self, key: String)
        ensures
            final(self)@ == Some(key@),
    {
        self.api_key = Some(key);
    }

    /// Whether a credential is present, that is, whether refinement runs.
    pub fn has_api_key(&self) -> (r: bool)
        ensures
            r == self@.is_some(),
    {
        self.api_key.is_some()
    }

    /// The system prompt for the language code `language` ("pl", "en" or any
    /// other, for the input's own language).
    pub fn build_system_prompt(&self, language: &str) -> (r: String)
        ensures
            r@ == system_prompt(language@),
    {
        proof {
            reveal_strlit("pl");
            reveal_strlit("en");
        }
        let instruction: &str = if same_text(language, "pl") {
            "Respond in Polish."
        } else if same_text(language, "en") {
            "Respond in English."
        } else {
            "Respond in the same language as the input."
        };
        concat3(SYSTEM_PROMPT_HEAD, instruction, SYSTEM_PROMPT_TAIL)
    }

    /// The variable parts of the request that refines `raw_text` in the
    /// language `language`; `None` when no credential is configured.
    pub fn prepare_request(&self, raw_text: &str, language: &str) -> (r: Option<RefinementRequest>)
        ensures
            r.is_some() == self@.is_some(),
            r matches Some(req) ==> {
                &&& req.authorization@ == bearer(self@->Some_0)
                &&& req.system_prompt@ == system_prompt(language@)
                &&& req.user_prompt@ == user_prompt(raw_text@)
            },
    {
        match &self.api_key {
            None => None,
            Some(key) => {
                let authorization = concat3("Bearer ", key.as_str(), "");
                let system_prompt = self.build_system_prompt(language);
                let user_prompt = concat3("Input: ", raw_text, "\nOutput:");
                proof {
                    reveal_strlit("");
                    assert(authorization@ =~= bearer(key@));
                }
                Some(RefinementRequest { authorization, system_prompt, user_prompt })
            },
        }
    }
}

/// The refined text of a reply whose choices hold `choices`: the first
/// choice without surrounding white space, or the raw text when the reply has
/// no choice.
pub open spec fn reply_text(choices: Seq<Seq<char>>, raw_text: Seq<char>) -> Seq<char> {
    if choices.len() > 0 {
        trimmed(choices[0])
    } else {
        raw_text
    }
}

/// Reads the refined text out of the contents of a reply's choices.
pub fn refined_text_from_choices(choices: &Vec<String>, raw_text: &str) -> (r: String)
    ensures
        r@ == reply_text(choices@.map_values(|c: String| c@), raw_text@),
{
    if choices.len() > 0 {
        trim_text(choices[0].as_str())
    } else {
        String::from_str(raw_text)
    }
}

} // verus!
