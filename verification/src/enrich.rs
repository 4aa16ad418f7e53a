//! What is asked of the summarization service for a diagnostic, and what is
//! read from its answer.

use vstd::prelude::*;
use vstd::string::StringExecFns;
use crate::diagnostic::{Diagnostic, DiagnosticView};
use crate::json::{Json, JsonView};

verus! {

/// The address of the service.
pub const ENDPOINT: &'static str = "https://api.openai.com/v1/chat/completions";

/// The name of the environment variable that holds the credential.
pub const CREDENTIAL_VARIABLE: &'static str = "OPENAI_API_KEY";

/// The model that the service is asked for.
pub const MODEL: &'static str = "gpt-4o-mini";

/// The role of the message that instructs the service.
pub const SYSTEM_ROLE: &'static str = "system";

/// The role of the message that holds the prompt.
pub const USER_ROLE: &'static str = "user";

/// The instruction given to the service with every request.
pub const SYSTEM_INSTRUCTION: &'static str =
    "You are a helpful assistant that summarizes TypeScript errors.";

/// The summary that stands in where the answer holds none.
pub const PLACEHOLDER_SUMMARY: &'static str = "Failed to get summary";

/// The name of the header that carries the credential.
pub const AUTHORIZATION_HEADER: &'static str = "Authorization";

/// What a credential is prefixed with in the authorization header.
pub const AUTHORIZATION_SCHEME: &'static str = "Bearer ";

/// The prompt, up to the file path.
pub const PROMPT_OPENING: &'static str =
    "Summarize the following TypeScript error in a short, readable manner:\n\nFile: ";

/// The prompt, between the file path and the message.
pub const PROMPT_BEFORE_MESSAGE: &'static str = "\nError: ";

/// The prompt, between the message and the source text.
pub const PROMPT_BEFORE_SOURCE: &'static str = "\n\nRelevant file content:\n";

/// One message of a request: who speaks, and what is said.
#[derive(Clone, Debug, PartialEq, Eq)]
pub struct ChatMessage {
    pub role: String,
    pub content: String,
}

/// The mathematical value of a [`ChatMessage`].
pub ghost struct ChatMessageView {
    pub role: Seq<char>,
    pub content: Seq<char>,
}

impl View for ChatMessage {
    type V = ChatMessageView;

    open spec fn view(&self) -> ChatMessageView {
        ChatMessageView { role: self.role@, content: self.content@ }
    }
}

impl DeepView for ChatMessage {
    type V = ChatMessageView;

    open spec fn deep_view(&self) -> ChatMessageView {
        self@
    }
}

/// The body of a request to the service.
#[derive(Clone, Debug, PartialEq, Eq)]
pub struct ChatRequest {
    pub model: String,
    pub messages: Vec<ChatMessage>,
}

/// The mathematical value of a [`ChatRequest`].
pub ghost struct ChatRequestView {
    pub model: Seq<char>,
    pub messages: Seq<ChatMessageView>,
}

impl View for ChatRequest {
    type V = ChatRequestView;

    open spec fn view(&self) -> ChatRequestView {
        ChatRequestView { model: self.model@, messages: self.messages.deep_view() }
    }
}

impl DeepView for ChatRequest {
    type V = ChatRequestView;

    open spec fn deep_view(&self) -> ChatRequestView {
        self@
    }
}

/// A diagnostic with the summary obtained for it.
#[derive(Clone, Debug, PartialEq, Eq)]
pub struct EnrichedResult {
    pub diagnostic: Diagnostic,
    pub summary: String,
}

/// The mathematical value of an [`EnrichedResult`].
pub ghost struct EnrichedResultView {
    pub diagnostic: DiagnosticView,
    pub summary: Seq<char>,
}

impl View for EnrichedResult {
    type V = EnrichedResultView;

    open spec fn view(&self) -> EnrichedResultView {
        EnrichedResultView { diagnostic: self.diagnostic@, summary: self.summary@ }
    }
}

/// The prompt for a diagnostic: its file path, its message, and the whole
/// text of the file, each behind its heading.
pub open spec fn prompt_of(diagnostic: DiagnosticView, source: Seq<char>) -> Seq<char> {
    PROMPT_OPENING@ + diagnostic.file_path + PROMPT_BEFORE_MESSAGE@ + diagnostic.message
        + PROMPT_BEFORE_SOURCE@ + source
}

/// The request that carries a prompt: the model, the fixed instruction as
/// the system's message, and the prompt as the user's only message.
pub open spec fn request_of(prompt: Seq<char>) -> ChatRequestView {
    ChatRequestView {
        model: MODEL@,
        messages: seq![
            ChatMessageView { role: SYSTEM_ROLE@, content: SYSTEM_INSTRUCTION@ },
            ChatMessageView { role: USER_ROLE@, content: prompt },
        ],
    }
}

/// A message as the service expects it: an object with the role and the
/// content, each a string.
pub open spec fn message_json(message: ChatMessageView) -> JsonView {
    JsonView::Object(
        seq![
            ("role"@, JsonView::Text(message.role)),
            ("content"@, JsonView::Text(message.content)),
        ],
    )
}

/// A request as the service expects it: an object with the model, a string,
/// and the messages, an array.
pub open spec fn request_json(request: ChatRequestView) -> JsonView {
    JsonView::Object(
        seq![
            ("model"@, JsonView::Text(request.model)),
            (
                "messages"@,
                JsonView::Array(
                    Seq::new(request.messages.len(), |i: int| message_json(request.messages[i])),
                ),
            ),
        ],
    )
}

/// The value of the authorization header for a credential.
pub open spec fn authorization_of(credential: Seq<char>) -> Seq<char> {
    AUTHORIZATION_SCHEME@ + credential
}

/// The text that an answer holds as `choices[0].message.content`, where it
/// holds a string there.
pub open spec fn content_of(answer: JsonView) -> Option<Seq<char>> {
    match answer.member("choices"@) {
        Some(choices) => match choices.element(0) {
            Some(choice) => match choice.member("message"@) {
                Some(message) => match message.member("content"@) {
                    Some(content) => content.text(),
                    None => None,
                },
                None => None,
            },
            None => None,
        },
        None => None,
    }
}

/// The summary read from an answer: the text that it holds, or the
/// placeholder where it holds none.
pub open spec fn summary_of(answer: JsonView) -> Seq<char> {
    match content_of(answer) {
        Some(text) => text,
        None => PLACEHOLDER_SUMMARY@,
    }
}

/// Writes the prompt for a diagnostic and the text of its file. The text is
/// taken whole, whatever its length.
pub fn build_prompt(diagnostic: &Diagnostic, source: &str) -> (prompt: String)
    ensures
        prompt@ == prompt_of(diagnostic@, source@),
{
    let mut prompt = String::from_str(PROMPT_OPENING);
    prompt.append(diagnostic.file_path.as_str());
    prompt.append(PROMPT_BEFORE_MESSAGE);
    prompt.append(diagnostic.message.as_str());
    prompt.append(PROMPT_BEFORE_SOURCE);
    prompt.append(source);
    prompt
}

/// Makes the request that carries a prompt.
pub fn build_request(prompt: String) -> (request: ChatRequest)
    ensures
        request@ == request_of(prompt@),
{
    let mut messages: Vec<ChatMessage> = Vec::new();
    messages.push(
        ChatMessage {
            role: String::from_str(SYSTEM_ROLE),
            content: String::from_str(SYSTEM_INSTRUCTION),
        },
    );
    messages.push(ChatMessage { role: String::from_str(USER_ROLE), content: prompt });
    let request = ChatRequest { model: String::from_str(MODEL), messages };
    proof {
        assert(request@.messages =~= request_of(prompt@).messages);
    }
    request
}

impl ChatMessage {
    /// The message as a JSON value.
    pub fn to_json(&self) -> (json: Json)
        ensures
            json@ == message_json(self@),
    {
        let mut members: Vec<(String, Json)> = Vec::new();
        members.push((String::from_str("role"), Json::Text(self.role.clone())));
        members.push((String::from_str("content"), Json::Text(self.content.clone())));
        let json = Json::Object(members);
        proof {
            reveal_with_fuel(Json::model, 2);
            assert(json@->Object_0 =~= message_json(self@)->Object_0);
        }
        json
    }
}

impl ChatRequest {
    /// The request as a JSON value: the body that is sent to the service.
    pub fn to_json(&self) -> (json: Json)
        ensures
            json@ == request_json(self@),
    {
        let mut messages: Vec<Json> = Vec::new();
        let mut index: usize = 0;
        while index < self.messages.len()
            invariant
                index <= self.messages.len(),
                messages.len() == index,
                forall|i: int| 0 <= i < index ==> (#[trigger] messages[i])@ == message_json(
                    self.messages[i]@,
                ),
            decreases self.messages.len() - index,
        {
            messages.push(self.messages[index].to_json());
            index += 1;
        }
        let list = Json::Array(messages);
        proof {
            assert(list@->Array_0 =~= request_json(self@)->Object_0[1].1->Array_0);
        }
        let mut members: Vec<(String, Json)> = Vec::new();
        members.push((String::from_str("model"), Json::Text(self.model.clone())));
        members.push((String::from_str("messages"), list));
        let json = Json::Object(members);
        proof {
            reveal_with_fuel(Json::model, 2);
            assert(json@->Object_0 =~= request_json(self@)->Object_0);
        }
        json
    }
}

/// Makes the value of the authorization header from a credential.
pub fn authorization(credential: &str) -> (header: String)
    ensures
        header@ == authorization_of(credential@),
{
    let mut header = String::from_str(AUTHORIZATION_SCHEME);
    header.append(credential);
    header
}

/// Finds the text that an answer holds as `choices[0].message.content`.
pub fn content(answer: &Json) -> (result: Option<&str>)
    ensures
        result.deep_view() == content_of(answer@),
{
    let choices = match answer.member("choices") {
        Some(choices) => choices,
        None => return None,
    };
    let choice = match choices.element(0) {
        Some(choice) => choice,
        None => return None,
    };
    let message = match choice.member("message") {
        Some(message) => message,
        None => return None,
    };
    match message.member("content") {
        Some(content) => content.text(),
        None => None,
    }
}

/// Reads the summary from an answer. An answer that holds no text where one
/// is expected is no failure: the placeholder stands in.
pub fn summary_from_response(answer: &Json) -> (summary: String)
    ensures
        summary@ == summary_of(answer@),
{
    match content(answer) {
        Some(text) => String::from_str(text),
        None => String::from_str(PLACEHOLDER_SUMMARY),
    }
}

} // verus!
