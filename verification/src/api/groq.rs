//! The provider's endpoints, the instruction that guides refinement, and
//! the reading of the provider's replies.

use vstd::prelude::*;
use vstd::string::*;

use crate::errors::{ErrorKind, VoiceFlowError};
use crate::text::{same_text, trim, trimmed};

verus! {

/// The root of the provider's interface.
pub const GROQ_BASE_URL: &'static str = "https://api.groq.com/openai/v1";

/// The path of the transcription endpoint under the root.
pub const TRANSCRIPTION_PATH: &'static str = "/audio/transcriptions";

/// The path of the chat endpoint under the root.
pub const CHAT_PATH: &'static str = "/chat/completions";

/// The scheme that precedes the credential in the authorization header.
pub const BEARER: &'static str = "Bearer ";

/// The time allowed to each request, in seconds.
pub const REQUEST_TIMEOUT_SECS: u64 = 30;

/// The sampling temperature of a refinement, in tenths.
pub const TEMPERATURE_TENTHS: u32 = 3;

/// The cap on the length of a refinement, in tokens.
pub const MAX_TOKENS: u32 = 2048;

/// The name under which the audio is uploaded.
pub const UPLOAD_FILE_NAME: &'static str = "audio.wav";

/// The media type of the uploaded audio.
pub const UPLOAD_MIME: &'static str = "audio/wav";

/// The response format asked of the transcription endpoint.
pub const RESPONSE_FORMAT: &'static str = "text";

/// The upload form's field for the audio.
pub const FIELD_FILE: &'static str = "file";

/// The upload form's field for the model.
pub const FIELD_MODEL: &'static str = "model";

/// The upload form's field for the language hint.
pub const FIELD_LANGUAGE: &'static str = "language";

/// The upload form's field for the response format.
pub const FIELD_RESPONSE_FORMAT: &'static str = "response_format";

/// The role of the turn that carries the instruction.
pub const ROLE_SYSTEM: &'static str = "system";

/// The role of the turn that carries the transcript.
pub const ROLE_USER: &'static str = "user";

/// What introduces a rejected transcription request in an error.
pub const STT_REJECTED: &'static str = "Groq STT error ";

/// What introduces a rejected refinement request in an error.
pub const LLM_REJECTED: &'static str = "Groq LLM error ";

/// The instruction common to every language.
pub const BASE_PROMPT: &'static str = "You are a dictation assistant for a software developer. \
    The user will give you raw speech-to-text output. \
    Fix grammar, punctuation, capitalization, and remove filler words (uh, um, like, né, tipo, então). \
    Keep the original meaning intact. Return ONLY the corrected text, nothing else.";

/// The addition for Brazilian Portuguese.
pub const HINT_PORTUGUESE: &'static str = "\nThe user speaks Brazilian Portuguese but frequently uses English technical terms \
    (e.g. deploy, commit, pull request, branch, merge, frontend, backend, API, endpoint, \
    framework, runtime, build, pipeline, sprint, refactor, debug, cloud, cluster, container, \
    callback, middleware, hook, state, props, component, token, socket, stream, buffer). \
    Keep these English terms as-is — do NOT translate them to Portuguese. \
    Write the rest in correct Brazilian Portuguese.";

/// The addition for Spanish.
pub const HINT_SPANISH: &'static str = "\nThe user speaks Spanish but may use English technical/programming terms. \
    Keep English technical terms as-is. Write the rest in correct Spanish.";

/// The addition for French.
pub const HINT_FRENCH: &'static str = "\nThe user speaks French but may use English technical/programming terms. \
    Keep English technical terms as-is. Write the rest in correct French.";

/// The addition for German.
pub const HINT_GERMAN: &'static str = "\nThe user speaks German but may use English technical/programming terms. \
    Keep English technical terms as-is. Write the rest in correct German.";

/// The addition for Italian.
pub const HINT_ITALIAN: &'static str = "\nThe user speaks Italian but may use English technical/programming terms. \
    Keep English technical terms as-is. Write the rest in correct Italian.";

/// The addition for Japanese, Korean and Chinese.
pub const HINT_EAST_ASIAN: &'static str = "\nThe user may mix English technical/programming terms with their native language. \
    Keep English technical terms as-is. Write the rest in the user's language.";

/// The addition for every other language, and for none.
pub const HINT_OTHER: &'static str = "\nKeep the original language. If the user mixes English technical terms, preserve them as-is.";

/// The languages that have an instruction of their own, and the rest.
#[derive(Clone, Copy, Debug, PartialEq, Eq, Structural)]
pub enum LanguageFamily {
    Portuguese,
    Spanish,
    French,
    German,
    Italian,
    EastAsian,
    Other,
}

/// The two services of the provider.
#[derive(Clone, Copy, Debug, PartialEq, Eq, Structural)]
pub enum Service {
    /// Speech to text.
    Transcription,
    /// Correction of the transcript by a language model.
    Refinement,
}

/// One turn of the chat sent for refinement.
#[derive(Debug, Clone)]
pub struct ChatTurn {
    /// Who speaks the turn.
    pub role: String,
    /// What the turn says.
    pub content: String,
}

/// The family of a language tag: one of the closed set of tags with an
/// instruction of their own, else `Other`.
pub open spec fn family_of(tag: Seq<char>) -> LanguageFamily {
    if tag == "pt"@ {
        LanguageFamily::Portuguese
    } else if tag == "es"@ {
        LanguageFamily::Spanish
    } else if tag == "fr"@ {
        LanguageFamily::French
    } else if tag == "de"@ {
        LanguageFamily::German
    } else if tag == "it"@ {
        LanguageFamily::Italian
    } else if tag == "ja"@ || tag == "ko"@ || tag == "zh"@ {
        LanguageFamily::EastAsian
    } else {
        LanguageFamily::Other
    }
}

/// The addition to the instruction for a family of languages.
pub open spec fn hint_of(family: LanguageFamily) -> Seq<char> {
    match family {
        LanguageFamily::Portuguese => HINT_PORTUGUESE@,
        LanguageFamily::Spanish => HINT_SPANISH@,
        LanguageFamily::French => HINT_FRENCH@,
        LanguageFamily::German => HINT_GERMAN@,
        LanguageFamily::Italian => HINT_ITALIAN@,
        LanguageFamily::EastAsian => HINT_EAST_ASIAN@,
        LanguageFamily::Other => HINT_OTHER@,
    }
}

/// The system instruction for refining a transcript in the given language:
/// the common instruction, then the addition for the language's family.
pub open spec fn refine_prompt(language: Seq<char>) -> Seq<char> {
    BASE_PROMPT@ + hint_of(family_of(language))
}

/// What introduces a rejected request to the given service in an error.
pub open spec fn rejected_label(service: Service) -> Seq<char> {
    match service {
        Service::Transcription => STT_REJECTED@,
        Service::Refinement => LLM_REJECTED@,
    }
}

/// The detail of the error for a rejected request: the service's label, the
/// status as the provider gave it, a colon and the body of the reply.
pub open spec fn rejection_detail(
    service: Service,
    status: Seq<char>,
    body: Seq<char>,
) -> Seq<char> {
    rejected_label(service) + status + ": "@ + body
}

/// Whether a status code reports success: 200 to 299.
pub open spec fn accepted(code: u16) -> bool {
    200 <= code < 300
}

/// The content of the first choice, or nothing where there is no choice.
pub open spec fn first_content(choices: Seq<String>) -> Seq<char> {
    if choices.len() > 0 {
        choices[0]@
    } else {
        Seq::empty()
    }
}

/// Whether a status code reports success.
pub fn is_accepted(code: u16) -> (ok: bool)
    ensures
        ok == accepted(code),
{
    200 <= code && code < 300
}

/// The family of a language tag.
pub fn language_family(tag: &str) -> (family: LanguageFamily)
    ensures
        family == family_of(tag@),
{
    if same_text(tag, "pt") {
        LanguageFamily::Portuguese
    } else if same_text(tag, "es") {
        LanguageFamily::Spanish
    } else if same_text(tag, "fr") {
        LanguageFamily::French
    } else if same_text(tag, "de") {
        LanguageFamily::German
    } else if same_text(tag, "it") {
        LanguageFamily::Italian
    } else if same_text(tag, "ja") || same_text(tag, "ko") || same_text(tag, "zh") {
        LanguageFamily::EastAsian
    } else {
        LanguageFamily::Other
    }
}

/// The addition to the instruction for a family of languages.
pub fn language_hint(family: LanguageFamily) -> (hint: &'static str)
    ensures
        hint@ == hint_of(family),
{
    match family {
        LanguageFamily::Portuguese => HINT_PORTUGUESE,
        LanguageFamily::Spanish => HINT_SPANISH,
        LanguageFamily::French => HINT_FRENCH,
        LanguageFamily::German => HINT_GERMAN,
        LanguageFamily::Italian => HINT_ITALIAN,
        LanguageFamily::EastAsian => HINT_EAST_ASIAN,
        LanguageFamily::Other => HINT_OTHER,
    }
}

/// Builds the system instruction for refining a transcript in the given
/// language.
pub fn build_refine_prompt(language: &str) -> (prompt: String)
    ensures
        prompt@ == refine_prompt(language@),
{
    let mut prompt = String::from_str(BASE_PROMPT);
    prompt.append(language_hint(language_family(language)));
    prompt
}

/// The chat sent for refinement: the system instruction for the language,
/// then the raw transcript as the user's turn.
pub fn chat_turns(language: &str, raw_text: &str) -> (turns: Vec<ChatTurn>)
    ensures
        turns@.len() == 2,
        turns@[0].role@ == ROLE_SYSTEM@,
        turns@[0].content@ == refine_prompt(language@),
        turns@[1].role@ == ROLE_USER@,
        turns@[1].content@ == raw_text@,
{
    let mut turns: Vec<ChatTurn> = Vec::new();
    turns.push(
        ChatTurn { role: String::from_str(ROLE_SYSTEM), content: build_refine_prompt(language) },
    );
    turns.push(ChatTurn { role: String::from_str(ROLE_USER), content: String::from_str(raw_text) });
    turns
}

/// The address of a service's endpoint.
pub fn endpoint(service: Service) -> (url: String)
    ensures
        url@ == GROQ_BASE_URL@ + (match service {
            Service::Transcription => TRANSCRIPTION_PATH@,
            Service::Refinement => CHAT_PATH@,
        }),
{
    let mut url = String::from_str(GROQ_BASE_URL);
    match service {
        Service::Transcription => url.append(TRANSCRIPTION_PATH),
        Service::Refinement => url.append(CHAT_PATH),
    }
    url
}

/// The value of the authorization header for a credential.
pub fn authorization(api_key: &str) -> (value: String)
    ensures
        value@ == BEARER@ + api_key@,
{
    let mut value = String::from_str(BEARER);
    value.append(api_key);
    value
}

/// The error for a request that the provider rejected.
pub fn rejection(service: Service, status: &str, body: &str) -> (e: VoiceFlowError)
    ensures
        e.spec_kind() == ErrorKind::Api,
        e.detail() == rejection_detail(service, status@, body@),
{
    let mut detail = match service {
        Service::Transcription => String::from_str(STT_REJECTED),
        Service::Refinement => String::from_str(LLM_REJECTED),
    };
    detail.append(status);
    detail.append(": ");
    detail.append(body);
    VoiceFlowError::Api(detail)
}

/// Reads the transcription endpoint's reply: the trimmed body where the
/// status reports success, else the rejection.
pub fn transcription_reply(
    code: u16,
    status: &str,
    body: &str,
) -> (r: Result<String, VoiceFlowError>)
    ensures
        accepted(code) ==> (r matches Ok(text) && text@ == trimmed(body@)),
        !accepted(code) ==> (r matches Err(e) && e.spec_kind() == ErrorKind::Api && e.detail()
            == rejection_detail(Service::Transcription, status@, body@)),
{
    if is_accepted(code) {
        Ok(trim(body))
    } else {
        Err(rejection(Service::Transcription, status, body))
    }
}

/// Reads the chat endpoint's reply: where the status reports success, the
/// trimmed content of the first choice, or nothing where the provider sent
/// no choice; else the rejection.
pub fn refinement_reply(
    code: u16,
    status: &str,
    body: &str,
    choices: &Vec<String>,
) -> (r: Result<String, VoiceFlowError>)
    ensures
        accepted(code) ==> (r matches Ok(text) && text@ == trimmed(first_content(choices@))),
        !accepted(code) ==> (r matches Err(e) && e.spec_kind() == ErrorKind::Api && e.detail()
            == rejection_detail(Service::Refinement, status@, body@)),
{
    if is_accepted(code) {
        if choices.len() > 0 {
            Ok(trim(choices[0].as_str()))
        } else {
            proof {
                assert(trimmed(Seq::<char>::empty()) == Seq::<char>::empty());
            }
            Ok(String::new())
        }
    } else {
        Err(rejection(Service::Refinement, status, body))
    }
}

/// Every instruction opens with the common instruction, whatever the
/// language.
pub proof fn lemma_prompt_opens_with_base(language: Seq<char>)
    ensures
        refine_prompt(language).len() >= BASE_PROMPT@.len(),
        refine_prompt(language).subrange(0, BASE_PROMPT@.len() as int) == BASE_PROMPT@,
{
    assert(refine_prompt(language).subrange(0, BASE_PROMPT@.len() as int) =~= BASE_PROMPT@);
}

} // verus!
