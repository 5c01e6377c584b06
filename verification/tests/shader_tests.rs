use learnopengl::shader::{
    build_succeeded, check_build_status, check_plain_link_status, failure_report,
    CompilationType, Shader, GL_TRUE,
};

fn expected(prefix: &str, log: &[u8]) -> Vec<u8> {
    let mut v = prefix.as_bytes().to_vec();
    if !log.is_empty() {
        v.extend_from_slice(&log[..log.len() - 1]);
    }
    v
}

#[test]
fn only_gl_true_is_success() {
    assert!(build_succeeded(GL_TRUE));
    assert!(build_succeeded(1));
    assert!(!build_succeeded(0));
    assert!(!build_succeeded(2));
    assert!(!build_succeeded(-1));
}

#[test]
fn successful_steps_report_nothing() {
    let log = [b'x'; 8];
    assert_eq!(check_build_status(CompilationType::Vertex, 1, &log), None);
    assert_eq!(check_build_status(CompilationType::Fragment, 1, &log), None);
    assert_eq!(check_build_status(CompilationType::Program, 1, &log), None);
    assert_eq!(check_plain_link_status(1, &log), None);
}

#[test]
fn failed_vertex_compile_message() {
    let log = b"0:1: error\0";
    let msg = check_build_status(CompilationType::Vertex, 0, log).unwrap();
    assert_eq!(msg, b"ERROR::SHADER::Vertex::COMPILATION_FAILED\n0:1: error".to_vec());
}

#[test]
fn failed_fragment_compile_message() {
    let log = b"bad\0\0";
    let msg = check_build_status(CompilationType::Fragment, 0, log).unwrap();
    assert_eq!(msg, expected("ERROR::SHADER::Fragment::COMPILATION_FAILED\n", log));
    assert_eq!(msg, b"ERROR::SHADER::Fragment::COMPILATION_FAILED\nbad\0".to_vec());
}

#[test]
fn failed_program_link_message() {
    let log = vec![0u8; 1024];
    let msg = check_build_status(CompilationType::Program, 0, &log).unwrap();
    assert_eq!(msg, expected("ERROR::SHADER::Program::LINKING_FAILED\n", &log));
    assert_eq!(msg.len(), "ERROR::SHADER::Program::LINKING_FAILED\n".len() + 1023);
}

#[test]
fn plain_link_failure_message_has_no_stage_name() {
    let log = b"link error\n\0";
    let msg = check_plain_link_status(0, log).unwrap();
    assert_eq!(msg, b"ERROR::SHADER::LINKING_FAILED\nlink error\n".to_vec());
}

#[test]
fn empty_info_log_gives_the_header_alone() {
    assert_eq!(
        failure_report(CompilationType::Vertex, &[]),
        b"ERROR::SHADER::Vertex::COMPILATION_FAILED\n".to_vec()
    );
    assert_eq!(check_plain_link_status(5, &[]).unwrap(), b"ERROR::SHADER::LINKING_FAILED\n".to_vec());
}

#[test]
fn shader_holds_its_program_name() {
    let s = Shader { id: 7 };
    assert_eq!(s.id, 7);
}
