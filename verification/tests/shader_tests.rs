use quad_demo::shader::assess_build;
use quad_demo::shader::bounded_log;
use quad_demo::shader::fragment_shader_source;
use quad_demo::shader::vertex_shader_source;
use quad_demo::shader::StageResult;
use quad_demo::shader::INFO_LOG_CAP;

fn ok() -> StageResult {
    StageResult {
        success: true,
        log: Vec::new(),
    }
}

fn failed(log: Vec<u8>) -> StageResult {
    StageResult {
        success: false,
        log,
    }
}

#[test]
fn sources_are_the_fixed_330_core_pair() {
    let v = vertex_shader_source();
    let f = fragment_shader_source();
    assert_eq!(
        v,
        "\n#version 330 core\nlayout (location = 0) in vec3 aPos;\nvoid main()\n{\n   gl_Position = vec4(aPos.x, aPos.y, aPos.z, 1.0);\n}\n"
    );
    assert_eq!(
        f,
        "\n#version 330 core\nout vec4 FragColor;\nvoid main()\n{\n   FragColor = vec4(1.0f, 0.5f, 0.2f, 1.0f);\n}\n"
    );
}

#[test]
fn conformant_results_report_success_and_no_diagnostics() {
    // A conformant implementation compiles both fixed sources and links
    // them: success status, empty logs.
    let r = assess_build(&ok(), &ok(), &ok());
    assert!(r.vertex_log.is_none());
    assert!(r.fragment_log.is_none());
    assert!(r.link_log.is_none());
    assert!(r.program_usable);
    assert!(r.stages_released);
}

#[test]
fn a_compile_failure_is_logged_and_execution_continues() {
    let r = assess_build(&failed(b"syntax error".to_vec()), &ok(), &ok());
    assert_eq!(r.vertex_log, Some(b"syntax error".to_vec()));
    assert!(r.fragment_log.is_none());
    assert!(r.link_log.is_none());
    assert!(!r.program_usable);
    assert!(r.stages_released);
}

#[test]
fn a_link_failure_is_logged_and_stages_are_still_released() {
    let r = assess_build(&ok(), &ok(), &failed(b"link error".to_vec()));
    assert!(r.vertex_log.is_none());
    assert!(r.fragment_log.is_none());
    assert_eq!(r.link_log, Some(b"link error".to_vec()));
    assert!(!r.program_usable);
    assert!(r.stages_released);
}

#[test]
fn every_failure_is_reported_at_once() {
    let r = assess_build(
        &failed(b"v".to_vec()),
        &failed(b"f".to_vec()),
        &failed(b"l".to_vec()),
    );
    assert_eq!(r.vertex_log, Some(b"v".to_vec()));
    assert_eq!(r.fragment_log, Some(b"f".to_vec()));
    assert_eq!(r.link_log, Some(b"l".to_vec()));
    assert!(!r.program_usable);
    assert!(r.stages_released);
}

#[test]
fn diagnostic_logs_are_bounded_to_512_bytes() {
    assert_eq!(INFO_LOG_CAP, 512);
    let long: Vec<u8> = (0..600u32).map(|i| (i % 251) as u8).collect();
    let r = assess_build(&failed(long.clone()), &ok(), &ok());
    let diag = r.vertex_log.unwrap();
    assert_eq!(diag.len(), 512);
    assert_eq!(&diag[..], &long[..512]);
}

#[test]
fn bounded_log_keeps_short_logs_whole() {
    assert_eq!(bounded_log(&Vec::new()), Vec::<u8>::new());
    assert_eq!(bounded_log(&b"abc".to_vec()), b"abc".to_vec());
    let exact: Vec<u8> = vec![7u8; 512];
    assert_eq!(bounded_log(&exact), exact);
    let over: Vec<u8> = vec![7u8; 513];
    assert_eq!(bounded_log(&over).len(), 512);
}
