use shaderpark::path::{check_stem, classify};
use shaderpark::text::{same_text, starts_with};
use shaderpark::ShaderStage;

fn some(text: &str) -> Option<String> {
    Some(text.to_string())
}

#[test]
fn vert_and_frag_select_their_stage() {
    assert_eq!(ShaderStage::from_extension(&some("vert")), Some(ShaderStage::Vertex));
    assert_eq!(ShaderStage::from_extension(&some("frag")), Some(ShaderStage::Fragment));
}

#[test]
fn other_extensions_select_no_stage() {
    assert_eq!(ShaderStage::from_extension(&None), None);
    assert_eq!(ShaderStage::from_extension(&some("")), None);
    assert_eq!(ShaderStage::from_extension(&some("glsl")), None);
    assert_eq!(ShaderStage::from_extension(&some("Vert")), None);
    assert_eq!(ShaderStage::from_extension(&some("vertx")), None);
    assert_eq!(ShaderStage::from_extension(&some("ver")), None);
    assert_eq!(ShaderStage::from_extension(&some(".frag")), None);
}

#[test]
fn stage_labels() {
    assert_eq!(ShaderStage::Vertex.label(), "Vertex");
    assert_eq!(ShaderStage::Fragment.label(), "Fragment");
}

#[test]
fn same_text_compares_every_character() {
    assert!(same_text("", ""));
    assert!(same_text("vert", "vert"));
    assert!(!same_text("vert", "verb"));
    assert!(!same_text("vert", "ver"));
    assert!(!same_text("ver", "vert"));
    assert!(same_text("schön", "schön"));
    assert!(!same_text("schön", "schon"));
}

#[test]
fn starts_with_tests_the_front() {
    assert!(starts_with("unlit", ""));
    assert!(starts_with("unlit", "un"));
    assert!(starts_with("unlit", "unlit"));
    assert!(!starts_with("unlit", "unlit2"));
    assert!(!starts_with("unlit", "lit"));
    assert!(!starts_with("", "u"));
    assert!(starts_with("überblendung", "über"));
}

#[test]
fn no_prefix_lets_every_stem_pass() {
    assert!(check_stem(&None, &some("anything")));
    assert!(check_stem(&None, &None));
}

#[test]
fn prefix_needs_a_stem_that_begins_with_it() {
    assert!(check_stem(&some("fullscreen"), &some("fullscreen")));
    assert!(check_stem(&some("full"), &some("fullscreen")));
    assert!(!check_stem(&some("fullscreen"), &some("full")));
    assert!(!check_stem(&some("full"), &some("unlit")));
    assert!(!check_stem(&some("full"), &None));
    assert!(check_stem(&some(""), &some("unlit")));
}

#[test]
fn classify_reads_the_extension_of_the_file_name() {
    assert_eq!(classify(&None, "./shaders/fullscreen.vert"), Some(ShaderStage::Vertex));
    assert_eq!(classify(&None, "./shaders/unlit.frag"), Some(ShaderStage::Fragment));
    assert_eq!(classify(&None, "unlit.frag"), Some(ShaderStage::Fragment));
    assert_eq!(classify(&None, "a.vert.frag"), Some(ShaderStage::Fragment));
    assert_eq!(classify(&None, "shaders.vert/readme"), None);
    assert_eq!(classify(&None, "shaders/unlit.spv"), None);
    assert_eq!(classify(&None, "shaders/unlit"), None);
    assert_eq!(classify(&None, "shaders/.vert"), None);
    assert_eq!(classify(&None, "vert"), None);
    assert_eq!(classify(&None, ""), None);
    assert_eq!(classify(&None, "shaders/.."), None);
}

#[test]
fn classify_tests_the_prefix_against_the_stem_not_the_path() {
    assert_eq!(classify(&some("unlit"), "shaders/unlit.frag"), Some(ShaderStage::Fragment));
    assert_eq!(classify(&some("un"), "shaders/unlit.frag"), Some(ShaderStage::Fragment));
    assert_eq!(classify(&some("shaders"), "shaders/unlit.frag"), None);
    assert_eq!(classify(&some("unlit.frag"), "shaders/unlit.frag"), None);
    assert_eq!(classify(&some("full"), "shaders/unlit.frag"), None);
    assert_eq!(classify(&some("full"), "shaders/fullscreen.vert"), Some(ShaderStage::Vertex));
    assert_eq!(classify(&some("a"), "a.b.vert"), Some(ShaderStage::Vertex));
    assert_eq!(classify(&some("a.b"), "a.b.vert"), Some(ShaderStage::Vertex));
    assert_eq!(classify(&some("a.b.v"), "a.b.vert"), None);
}

#[test]
fn classify_with_a_prefix_still_needs_a_known_extension() {
    assert_eq!(classify(&some("unlit"), "shaders/unlit.txt"), None);
    assert_eq!(classify(&some("unlit"), "shaders/unlit"), None);
    assert_eq!(classify(&some(".vert"), "shaders/.vert"), None);
}
