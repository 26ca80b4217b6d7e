use mountain_gl::shader::{
    ends_with, filled_buffer, program_resource_names, shader_kind_for, Error, ShaderKind,
};

#[test]
fn kind_from_extension() {
    assert_eq!(shader_kind_for("shaders/triangle.vert").unwrap(), ShaderKind::Vertex);
    assert_eq!(shader_kind_for("shaders/triangle.frag").unwrap(), ShaderKind::Fragment);
    assert_eq!(shader_kind_for(".vert").unwrap(), ShaderKind::Vertex);
}

#[test]
fn unknown_extension_is_an_error() {
    for name in ["shaders/triangle.glsl", "vert", "", "a.vert.bak"] {
        match shader_kind_for(name) {
            Err(Error::CanNotDetermineShaderTypeForResource { name: n }) => assert_eq!(n, name),
            other => panic!("unexpected {:?}", other),
        }
    }
}

#[test]
fn suffixes() {
    assert!(ends_with("abc", "bc"));
    assert!(ends_with("abc", ""));
    assert!(ends_with("héllo", "llo"));
    assert!(!ends_with("bc", "abc"));
    assert!(!ends_with("abd", "bc"));
}

#[test]
fn program_is_built_from_two_resources() {
    assert_eq!(
        program_resource_names("shaders/triangle"),
        vec!["shaders/triangle.vert".to_string(), "shaders/triangle.frag".to_string()]
    );
}

#[test]
fn error_messages() {
    let e = Error::ResourceLoad { name: "a.vert".to_string(), inner: "gone".to_string() };
    assert_eq!(e.message(), "Failed to load resource a.vert");
    let e = Error::CanNotDetermineShaderTypeForResource { name: "a.txt".to_string() };
    assert_eq!(e.message(), "Can not determine shader type for resource a.txt");
    let e = Error::CompileError { name: "a.frag".to_string(), message: "bad".to_string() };
    assert_eq!(e.message(), "Failed to compile shader a.frag: bad");
    let e = Error::LinkError { name: "a".to_string(), message: "worse".to_string() };
    assert_eq!(e.message(), "Failed to link program a: worse");
}

#[test]
fn log_buffers() {
    assert_eq!(filled_buffer(3, b' '), vec![b' ', b' ', b' ']);
    assert!(filled_buffer(0, b' ').is_empty());
}
