//! The shader program builder: fixed sources and the reporting rules.
//!
//! The GPU compiles and links; what the demo itself decides is fixed here
//! and verified: which sources are handed over, how a compile or link
//! status is judged, that a failure is reported with a diagnostic log
//! bounded to `INFO_LOG_CAP` bytes while execution continues, that the
//! program counts as usable exactly when both compiles and the link
//! succeeded, and that the two per-stage shader objects are released after
//! the link attempt no matter how it went.

use vstd::prelude::*;

verus! {

/// The fixed vertex stage source.
pub open spec fn vertex_shader_source_spec() -> Seq<char> {
    "\n#version 330 core\nlayout (location = 0) in vec3 aPos;\nvoid main()\n{\n   gl_Position = vec4(aPos.x, aPos.y, aPos.z, 1.0);\n}\n"@
}

/// The fixed fragment stage source.
pub open spec fn fragment_shader_source_spec() -> Seq<char> {
    "\n#version 330 core\nout vec4 FragColor;\nvoid main()\n{\n   FragColor = vec4(1.0f, 0.5f, 0.2f, 1.0f);\n}\n"@
}

/// The vertex stage source handed to the GPU.
pub fn vertex_shader_source() -> (s: &'static str)
    ensures
        s@ == vertex_shader_source_spec(),
{
    "\n#version 330 core\nlayout (location = 0) in vec3 aPos;\nvoid main()\n{\n   gl_Position = vec4(aPos.x, aPos.y, aPos.z, 1.0);\n}\n"
}

/// The fragment stage source handed to the GPU.
pub fn fragment_shader_source() -> (s: &'static str)
    ensures
        s@ == fragment_shader_source_spec(),
{
    "\n#version 330 core\nout vec4 FragColor;\nvoid main()\n{\n   FragColor = vec4(1.0f, 0.5f, 0.2f, 1.0f);\n}\n"
}

/// The most bytes of a diagnostic log that are ever retrieved or shown.
pub const INFO_LOG_CAP: usize = 512;

/// What the GPU reports of one compile or link attempt: the status flag
/// and the full info log.
pub struct StageResult {
    pub success: bool,
    pub log: Vec<u8>,
}

/// A log bounded to the first `INFO_LOG_CAP` bytes.
pub open spec fn bounded_log_spec(log: Seq<u8>) -> Seq<u8> {
    if log.len() <= 512 {
        log
    } else {
        log.take(512)
    }
}

/// Copies at most `INFO_LOG_CAP` bytes of a diagnostic log.
pub fn bounded_log(log: &Vec<u8>) -> (r: Vec<u8>)
    ensures
        r@ == bounded_log_spec(log@),
{
    let mut r: Vec<u8> = Vec::new();
    let n = if log.len() <= INFO_LOG_CAP {
        log.len()
    } else {
        INFO_LOG_CAP
    };
    let mut i: usize = 0;
    while i < n
        invariant
            n <= log@.len(),
            i <= n,
            r@ == log@.take(i as int),
        decreases n - i,
    {
        r.push(log[i]);
        proof {
            assert(r@ =~= log@.take(i + 1));
        }
        i += 1;
    }
    proof {
        assert(r@ =~= bounded_log_spec(log@));
    }
    r
}

/// What the builder reports once both compiles and the link have been
/// attempted. A `Some` log is a failure diagnostic, already bounded;
/// `None` means that step succeeded and nothing is reported for it.
pub struct BuildReport {
    pub vertex_log: Option<Vec<u8>>,
    pub fragment_log: Option<Vec<u8>>,
    pub link_log: Option<Vec<u8>>,
    pub program_usable: bool,
    pub stages_released: bool,
}

/// Judges the three attempted steps. A diagnostic is reported for a step
/// exactly when its status flag says failure, and then holds the first
/// `INFO_LOG_CAP` bytes of that step's log; the program is usable exactly
/// when every step succeeded; and the per-stage shader objects are
/// released whatever happened.
pub fn assess_build(vertex: &StageResult, fragment: &StageResult, link: &StageResult) -> (r:
    BuildReport)
    ensures
        r.vertex_log is Some <==> !vertex.success,
        r.vertex_log matches Some(l) ==> l@ == bounded_log_spec(vertex.log@),
        r.fragment_log is Some <==> !fragment.success,
        r.fragment_log matches Some(l) ==> l@ == bounded_log_spec(fragment.log@),
        r.link_log is Some <==> !link.success,
        r.link_log matches Some(l) ==> l@ == bounded_log_spec(link.log@),
        r.program_usable == (vertex.success && fragment.success && link.success),
        r.stages_released,
{
    let vertex_log = if !vertex.success {
        Some(bounded_log(&vertex.log))
    } else {
        None
    };
    let fragment_log = if !fragment.success {
        Some(bounded_log(&fragment.log))
    } else {
        None
    };
    let link_log = if !link.success {
        Some(bounded_log(&link.log))
    } else {
        None
    };
    let program_usable = vertex.success && fragment.success && link.success;
    BuildReport { vertex_log, fragment_log, link_log, program_usable, stages_released: true }
}

} // verus!
