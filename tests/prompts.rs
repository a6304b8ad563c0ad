use codex_exec::cli::{Color, Mode};
use codex_exec::prompts::{
    create_text_param_for_request, get_default_system_prompt, get_specialist_system_prompt,
    create_reasoning_param_for_request, OpenAiVerbosity, Prompt, Reasoning, ReasoningEffort,
    ReasoningSummary, PromptTexts, ToolKind, ToolSpec, Verbosity,
};
use codex_exec::text::int_string;

fn texts() -> PromptTexts {
    PromptTexts {
        base: "BASE".to_string(),
        active_directory: "AD".to_string(),
        client_side_web: "CSW".to_string(),
        enumeration: "ENUM".to_string(),
        linux_privesc: "LPE".to_string(),
        shelling: "SHELL".to_string(),
        web_enumeration: "WENUM".to_string(),
        web: "WEB".to_string(),
        windows_privesc: "WPE".to_string(),
        apply_patch: "APPLY".to_string(),
    }
}

#[test]
fn specialist_prompts_by_name() {
    let t = texts();
    assert_eq!(get_specialist_system_prompt("active_directory", &t), "AD");
    assert_eq!(get_specialist_system_prompt("web", &t), "WEB");
    assert_eq!(get_specialist_system_prompt("web_enumeration", &t), "WENUM");
    assert_eq!(get_specialist_system_prompt("windows_privesc", &t), "WPE");
    assert_eq!(get_specialist_system_prompt("verification", &t), "BASE");
    assert_eq!(get_specialist_system_prompt("generalist", &t), "BASE");
    assert_eq!(get_specialist_system_prompt("unknown", &t), "BASE");
    assert_eq!(get_default_system_prompt(&t), "BASE");
}

#[test]
fn mode_names() {
    assert_eq!(Mode::default(), Mode::Generalist);
    assert_eq!(Color::default(), Color::Auto);
    assert_eq!(Mode::Generalist.as_str(), "generalist");
    assert_eq!(Mode::ClientSideWeb.to_string(), "client_side_web");
    assert_eq!(Mode::LinuxPrivesc.as_str(), "linux_privesc");
    assert_eq!(get_specialist_system_prompt(Mode::Shelling.as_str(), &texts()), "SHELL");
}

#[test]
fn text_controls_carry_the_verbosity() {
    let t = create_text_param_for_request(Some(Verbosity::Low)).unwrap();
    assert_eq!(t.verbosity, Some(OpenAiVerbosity::Low));
    assert_eq!(t.verbosity.unwrap().as_str(), "low");
    assert_eq!(OpenAiVerbosity::from(Verbosity::High).as_str(), "high");
    assert_eq!(OpenAiVerbosity::default(), OpenAiVerbosity::Medium);
}

#[test]
fn text_controls_absent_without_verbosity() {
    assert!(create_text_param_for_request(None).is_none());
}

#[test]
fn decimal_text() {
    assert_eq!(int_string(0), "0");
    assert_eq!(int_string(42), "42");
    assert_eq!(int_string(-7), "-7");
    assert_eq!(int_string(i64::MIN), "-9223372036854775808");
    assert_eq!(int_string(i64::MAX), "9223372036854775807");
}

#[test]
fn get_full_instructions_no_user_content() {
    let prompt = Prompt { ..Default::default() };
    let full = prompt.get_full_instructions(true, None, &texts());
    assert_eq!(full, "BASE\nAPPLY");
}

#[test]
fn full_instructions_depend_on_specialist_override_and_tools() {
    let t = texts();
    let with_tool = Prompt {
        store: true,
        tools: vec![ToolSpec { kind: ToolKind::Freeform, name: "apply_patch".to_string() }],
        base_instructions_override: None,
    };
    assert_eq!(with_tool.get_full_instructions(false, None, &t), "BASE");
    assert_eq!(with_tool.get_full_instructions(true, None, &t), "BASE\nAPPLY");
    let other_tool = Prompt {
        store: true,
        tools: vec![ToolSpec { kind: ToolKind::Other, name: "apply_patch".to_string() }],
        base_instructions_override: None,
    };
    assert_eq!(other_tool.get_full_instructions(false, None, &t), "BASE\nAPPLY");
    assert_eq!(other_tool.get_full_instructions(false, Some("shelling"), &t), "SHELL");
    assert_eq!(other_tool.get_full_instructions(false, Some("verification"), &t), "BASE");
    let overridden = Prompt {
        store: false,
        tools: vec![],
        base_instructions_override: Some("OVR".to_string()),
    };
    assert_eq!(overridden.get_full_instructions(true, None, &t), "OVR");
    assert_eq!(overridden.get_full_instructions(true, Some("generalist"), &t), "OVR");
    assert_eq!(overridden.get_full_instructions(true, Some("web"), &t), "WEB");
}

#[test]
fn user_instructions_are_tagged() {
    assert_eq!(
        Prompt::format_user_instructions_message("be brief"),
        "<user_instructions>\n\nbe brief\n\n</user_instructions>"
    );
}

#[test]
fn reasoning_controls_only_when_supported() {
    assert_eq!(
        create_reasoning_param_for_request(true, ReasoningEffort::High, ReasoningSummary::Concise),
        Some(Reasoning { effort: ReasoningEffort::High, summary: ReasoningSummary::Concise })
    );
    assert_eq!(create_reasoning_param_for_request(false, ReasoningEffort::Low, ReasoningSummary::Auto), None);
}
