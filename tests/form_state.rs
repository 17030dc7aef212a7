use treble::form::{AgentOutputContainer, AgentTextInput, UserTextInput};

#[test]
fn fresh_form_is_empty() {
    assert_eq!(UserTextInput::new().content, "");
    assert_eq!(AgentTextInput::new().content, "");
    let out = AgentOutputContainer::new();
    assert_eq!(out.filepath, "Select a folder...");
    assert_eq!(out.separator_text, "/");
    assert_eq!(out.filename, "");
}

#[test]
fn form_edits_replace_fields() {
    let mut user = UserTextInput::new();
    user.edit(String::from("a bassline"));
    assert_eq!(user.content, "a bassline");
    let mut path = AgentTextInput::new();
    path.edit(String::from("/tmp/out.midi"));
    assert_eq!(path.content, "/tmp/out.midi");
    let mut out = AgentOutputContainer::new();
    out.select_folder(String::from("/music"));
    out.rename(String::from("riff.midi"));
    assert_eq!(out.filepath, "/music");
    assert_eq!(out.separator_text, "/");
    assert_eq!(out.filename, "riff.midi");
}
