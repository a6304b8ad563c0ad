//! Choosing the system prompt that the log records, and the request's text
//! controls.
use vstd::prelude::*;
use vstd::string::StringExecFns;
use crate::text::same_text;
use crate::transcript::opt_view;

verus! {

/// The prompt texts, one per specialist, and the generalist's base text.
pub struct PromptTexts {
    pub base: String,
    pub active_directory: String,
    pub client_side_web: String,
    pub enumeration: String,
    pub linux_privesc: String,
    pub shelling: String,
    pub web_enumeration: String,
    pub web: String,
    pub windows_privesc: String,
    /// Instructions for the `apply_patch` tool, added for models that need them.
    pub apply_patch: String,
}

/// The prompt text for a specialist name; any name that is not a specialist's
/// (the generalist and `verification` among them) gets the base text.
pub open spec fn specialist_prompt(specialist: Seq<char>, t: PromptTexts) -> Seq<char> {
    if specialist == "active_directory"@ {
        t.active_directory@
    } else if specialist == "client_side_web"@ {
        t.client_side_web@
    } else if specialist == "enumeration"@ {
        t.enumeration@
    } else if specialist == "linux_privesc"@ {
        t.linux_privesc@
    } else if specialist == "shelling"@ {
        t.shelling@
    } else if specialist == "web_enumeration"@ {
        t.web_enumeration@
    } else if specialist == "web"@ {
        t.web@
    } else if specialist == "windows_privesc"@ {
        t.windows_privesc@
    } else {
        t.base@
    }
}

/// The system prompt for a specialist.
pub fn get_specialist_system_prompt(specialist: &str, texts: &PromptTexts) -> (r: String)
    ensures
        r@ == specialist_prompt(specialist@, *texts),
{
    if same_text(specialist, "active_directory") {
        texts.active_directory.clone()
    } else if same_text(specialist, "client_side_web") {
        texts.client_side_web.clone()
    } else if same_text(specialist, "enumeration") {
        texts.enumeration.clone()
    } else if same_text(specialist, "linux_privesc") {
        texts.linux_privesc.clone()
    } else if same_text(specialist, "shelling") {
        texts.shelling.clone()
    } else if same_text(specialist, "web_enumeration") {
        texts.web_enumeration.clone()
    } else if same_text(specialist, "web") {
        texts.web.clone()
    } else if same_text(specialist, "windows_privesc") {
        texts.windows_privesc.clone()
    } else {
        get_default_system_prompt(texts)
    }
}

/// The generalist's system prompt.
pub fn get_default_system_prompt(texts: &PromptTexts) -> (r: String)
    ensures
        r@ == texts.base@,
{
    texts.base.clone()
}

/// The verbosity asked for in the configuration.
#[derive(Debug, Clone, Copy, PartialEq, Eq, Structural)]
pub enum Verbosity {
    Low,
    Medium,
    High,
}

/// The verbosity as the request names it.
#[derive(Debug, Clone, Copy, PartialEq, Eq, Structural)]
pub enum OpenAiVerbosity {
    Low,
    Medium,
    High,
}

impl Default for OpenAiVerbosity {
    fn default() -> (r: OpenAiVerbosity)
        ensures
            r == OpenAiVerbosity::Medium,
    {
        OpenAiVerbosity::Medium
    }
}

/// The request's verbosity for a configured one.
pub open spec fn request_verbosity(v: Verbosity) -> OpenAiVerbosity {
    match v {
        Verbosity::Low => OpenAiVerbosity::Low,
        Verbosity::Medium => OpenAiVerbosity::Medium,
        Verbosity::High => OpenAiVerbosity::High,
    }
}

/// The lower-case name the request uses for a verbosity.
pub open spec fn verbosity_name(v: OpenAiVerbosity) -> Seq<char> {
    match v {
        OpenAiVerbosity::Low => "low"@,
        OpenAiVerbosity::Medium => "medium"@,
        OpenAiVerbosity::High => "high"@,
    }
}

impl From<Verbosity> for OpenAiVerbosity {
    fn from(v: Verbosity) -> (r: OpenAiVerbosity) {
        match v {
            Verbosity::Low => OpenAiVerbosity::Low,
            Verbosity::Medium => OpenAiVerbosity::Medium,
            Verbosity::High => OpenAiVerbosity::High,
        }
    }
}

impl vstd::std_specs::convert::FromSpecImpl<Verbosity> for OpenAiVerbosity {
    open spec fn obeys_from_spec() -> bool {
        true
    }

    open spec fn from_spec(v: Verbosity) -> OpenAiVerbosity {
        request_verbosity(v)
    }
}

impl OpenAiVerbosity {
    /// The lower-case name the request uses.
    pub fn as_str(&self) -> (r: &'static str)
        ensures
            r@ == verbosity_name(*self),
    {
        match self {
            OpenAiVerbosity::Low => "low",
            OpenAiVerbosity::Medium => "medium",
            OpenAiVerbosity::High => "high",
        }
    }
}

/// The request's `text` controls.
#[derive(Debug, Clone, Copy, PartialEq, Eq, Structural)]
pub struct TextControls {
    pub verbosity: Option<OpenAiVerbosity>,
}

/// The `text` controls for a request: present exactly when a verbosity was
/// configured, and then carrying it.
pub fn create_text_param_for_request(verbosity: Option<Verbosity>) -> (r: Option<TextControls>)
    ensures
        match verbosity {
            Some(v) => r == Some(TextControls { verbosity: Some(request_verbosity(v)) }),
            None => r is None,
        },
{
    match verbosity {
        Some(v) => Some(TextControls { verbosity: Some(OpenAiVerbosity::from(v)) }),
        None => None,
    }
}

/// How hard the model is asked to reason.
#[derive(Debug, Clone, Copy, PartialEq, Eq, Structural)]
pub enum ReasoningEffort {
    Minimal,
    Low,
    Medium,
    High,
}

/// How the model's reasoning is summarized.
#[derive(Debug, Clone, Copy, PartialEq, Eq, Structural)]
pub enum ReasoningSummary {
    Auto,
    Concise,
    Detailed,
    /// No summary.
    Disabled,
}

/// The request's `reasoning` controls.
#[derive(Debug, Clone, Copy, PartialEq, Eq, Structural)]
pub struct Reasoning {
    pub effort: ReasoningEffort,
    pub summary: ReasoningSummary,
}

/// The `reasoning` controls for a request: present exactly when the model
/// family supports reasoning summaries, and then carrying both settings.
pub fn create_reasoning_param_for_request(
    supports_reasoning_summaries: bool,
    effort: ReasoningEffort,
    summary: ReasoningSummary,
) -> (r: Option<Reasoning>)
    ensures
        r == (if supports_reasoning_summaries {
            Some(Reasoning { effort, summary })
        } else {
            None
        }),
{
    if supports_reasoning_summaries {
        Some(Reasoning { effort, summary })
    } else {
        None
    }
}

/// Whether a name selects a specialist's own prompt text.
pub open spec fn is_specialist_name(s: Seq<char>) -> bool {
    s == "active_directory"@ || s == "client_side_web"@ || s == "enumeration"@ || s == "linux_privesc"@
        || s == "shelling"@ || s == "web_enumeration"@ || s == "web"@ || s == "windows_privesc"@
}

/// The kind of a tool offered to the model.
#[derive(Debug, Clone, Copy, PartialEq, Eq, Structural)]
pub enum ToolKind {
    Function,
    Freeform,
    Other,
}

/// A tool offered to the model, by kind and name.
pub struct ToolSpec {
    pub kind: ToolKind,
    pub name: String,
}

/// What a model turn is asked with, as far as its instructions depend on it.
pub struct Prompt {
    /// Whether to store the response on the server side.
    pub store: bool,
    /// Tools available to the model.
    pub tools: Vec<ToolSpec>,
    /// Replaces the base instructions when no specialist is chosen.
    pub base_instructions_override: Option<String>,
}

impl Default for Prompt {
    fn default() -> (r: Prompt)
        ensures
            !r.store,
            r.tools@.len() == 0,
            r.base_instructions_override is None,
    {
        Prompt { store: false, tools: Vec::new(), base_instructions_override: None }
    }
}

/// Whether a function or freeform tool named `apply_patch` is offered.
pub open spec fn has_apply_patch_tool(tools: Seq<ToolSpec>) -> bool {
    exists|i: int| 0 <= i < tools.len() && (#[trigger] tools[i]).kind != ToolKind::Other
        && tools[i].name@ == "apply_patch"@
}

/// The base instructions: a specialist's text (the base text for
/// `verification`), else the override, else the base text.
pub open spec fn base_instructions(specialist: Option<Seq<char>>, override_text: Option<Seq<char>>, t: PromptTexts) -> Seq<char> {
    match specialist {
        Some(s) if s == "verification"@ => t.base@,
        Some(s) if is_specialist_name(s) => specialist_prompt(s, t),
        _ => match override_text {
            Some(o) => o,
            None => t.base@,
        },
    }
}

/// The full instructions: the base instructions, followed on a new line by
/// the `apply_patch` instructions when neither a specialist nor an override
/// is in play and the model needs them or lacks the tool.
pub open spec fn full_instructions(
    specialist: Option<Seq<char>>,
    override_text: Option<Seq<char>>,
    needs_special_apply_patch_instructions: bool,
    tools: Seq<ToolSpec>,
    t: PromptTexts,
) -> Seq<char> {
    let base = base_instructions(specialist, override_text, t);
    if specialist is None && override_text is None && (needs_special_apply_patch_instructions
        || !has_apply_patch_tool(tools)) {
        base + "\n"@ + t.apply_patch@
    } else {
        base
    }
}

fn is_apply_patch_tool_present(tools: &Vec<ToolSpec>) -> (r: bool)
    ensures
        r == has_apply_patch_tool(tools@),
{
    let mut i: usize = 0;
    while i < tools.len()
        invariant
            i <= tools@.len(),
            forall|j: int| 0 <= j < i ==> !((#[trigger] tools@[j]).kind != ToolKind::Other
                && tools@[j].name@ == "apply_patch"@),
        decreases tools@.len() - i,
    {
        if tools[i].kind != ToolKind::Other && same_text(tools[i].name.as_str(), "apply_patch") {
            return true;
        }
        i = i + 1;
    }
    false
}

impl Prompt {
    /// The instructions sent with a turn (see `full_instructions`).
    pub fn get_full_instructions(
        &self,
        needs_special_apply_patch_instructions: bool,
        specialist: Option<&str>,
        texts: &PromptTexts,
    ) -> (r: String)
        ensures
            r@ == full_instructions(
                match specialist {
                    Some(s) => Some(s@),
                    None => None,
                },
                opt_view(self.base_instructions_override),
                needs_special_apply_patch_instructions,
                self.tools@,
                *texts,
            ),
    {
        let chosen = match specialist {
            Some(s) => {
                if same_text(s, "verification") {
                    Some(texts.base.clone())
                } else {
                    let r = get_specialist_system_prompt(s, texts);
                    if same_text(s, "active_directory") || same_text(s, "client_side_web")
                        || same_text(s, "enumeration") || same_text(s, "linux_privesc")
                        || same_text(s, "shelling") || same_text(s, "web_enumeration")
                        || same_text(s, "web") || same_text(s, "windows_privesc") {
                        Some(r)
                    } else {
                        None
                    }
                }
            },
            None => None,
        };
        let mut out = match chosen {
            Some(c) => c,
            None => match &self.base_instructions_override {
                Some(o) => o.clone(),
                None => texts.base.clone(),
            },
        };
        if specialist.is_none() && self.base_instructions_override.is_none()
            && (needs_special_apply_patch_instructions || !is_apply_patch_tool_present(&self.tools)) {
            out.append("\n");
            out.append(texts.apply_patch.as_str());
        }
        out
    }

    /// The user's instructions wrapped in tags for the model to find.
    pub fn format_user_instructions_message(ui: &str) -> (r: String)
        ensures
            r@ == "<user_instructions>\n\n"@ + ui@ + "\n\n</user_instructions>"@,
    {
        let mut s = String::new();
        s.append("<user_instructions>\n\n");
        s.append(ui);
        s.append("\n\n</user_instructions>");
        proof { assert(s@ =~= "<user_instructions>\n\n"@ + ui@ + "\n\n</user_instructions>"@); }
        s
    }
}

} // verus!
