use shaderpark::{Error, Message, ShaderStage};

fn text(s: &str) -> String {
    s.to_string()
}

#[test]
fn reload_message_names_stage_and_path() {
    let message = Message::Reloaded { stage: ShaderStage::Vertex, path: text("./shaders/a.vert") };
    assert_eq!(message.describe(), "Successfully loaded Vertex shader: ./shaders/a.vert");
    let message = Message::Reloaded { stage: ShaderStage::Fragment, path: text("b.frag") };
    assert_eq!(message.describe(), "Successfully loaded Fragment shader: b.frag");
}

#[test]
fn compile_error_names_stage_path_and_diagnostic() {
    let error = Error::Compile {
        stage: ShaderStage::Fragment,
        path: text("b.frag"),
        diagnostic: text("b.frag:3: error: 'x' : undeclared identifier"),
    };
    assert_eq!(
        error.describe(),
        "Failed to compile Fragment shader b.frag: b.frag:3: error: 'x' : undeclared identifier"
    );
    assert_eq!(Message::Error(error.clone()).describe(), error.describe());
}

#[test]
fn every_error_has_its_words() {
    assert_eq!(
        Error::CompilerInit { details: text("no compiler") }.describe(),
        "Failed to create the shader compiler: no compiler"
    );
    assert_eq!(
        Error::WatchSetup { details: text("no such directory") }.describe(),
        "Failed to watch the shader directory: no such directory"
    );
    assert_eq!(
        Error::FileRead { path: text("a.vert"), details: text("permission denied") }.describe(),
        "File error loading a.vert: permission denied"
    );
    assert_eq!(
        Error::MaterialTeardown { details: text("unknown material") }.describe(),
        "Failed to remove the live material: unknown material"
    );
    assert_eq!(
        Error::MaterialCreation { details: text("bad SPIR-V") }.describe(),
        "Failed to create the material: bad SPIR-V"
    );
    assert_eq!(Error::UnexpectedInput.describe(), "Input does not answer the pending action");
}

#[test]
fn only_swap_failures_are_severe() {
    assert!(Error::MaterialTeardown { details: text("") }.is_severe());
    assert!(Error::MaterialCreation { details: text("") }.is_severe());
    assert!(!Error::CompilerInit { details: text("") }.is_severe());
    assert!(!Error::WatchSetup { details: text("") }.is_severe());
    assert!(!Error::FileRead { path: text(""), details: text("") }.is_severe());
    assert!(!Error::Compile {
        stage: ShaderStage::Vertex,
        path: text(""),
        diagnostic: text("")
    }
    .is_severe());
    assert!(!Error::UnexpectedInput.is_severe());
}
