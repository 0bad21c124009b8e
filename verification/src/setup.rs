//! Mesh buffer setup: the upload sequence and its ordering invariant.
//!
//! The graphics API imposes an order on setup: the layout descriptor
//! captures the index-buffer binding, so the index buffer must never be
//! unbound while the descriptor is bound; the vertex-buffer association is
//! captured by configuring the attribute, so the vertex buffer may be
//! unbound only after that. This module states those rules as a small
//! step machine over the binding state, gives the exact step sequence the
//! demo performs, and proves that the sequence obeys every rule and ends
//! with a fully set-up descriptor.

use vstd::prelude::*;

verus! {

/// One operation of the mesh setup sequence.
#[derive(PartialEq, Eq, Structural, Clone, Copy, Debug)]
pub enum SetupStep {
    /// Generate the layout descriptor and the two buffer objects.
    GenObjects,
    /// Bind the layout descriptor.
    BindLayout,
    /// Bind the vertex buffer.
    BindVertexBuffer,
    /// Fill the bound vertex buffer with the quad vertices, static usage.
    UploadVertexData,
    /// Bind the index buffer; the bound descriptor captures this binding.
    BindIndexBuffer,
    /// Fill the bound index buffer with the quad indices, static usage.
    UploadIndexData,
    /// Describe attribute 0 over the bound vertex buffer; the descriptor
    /// captures the association.
    ConfigureAttribute,
    /// Enable attribute 0.
    EnableAttribute,
    /// Unbind the vertex buffer.
    UnbindVertexBuffer,
    /// Unbind the index buffer.
    UnbindIndexBuffer,
    /// Unbind the layout descriptor.
    UnbindLayout,
}

/// The binding state the setup machine tracks.
#[derive(PartialEq, Eq, Structural, Clone, Copy, Debug)]
pub struct SetupState {
    /// The descriptor and buffer objects exist.
    pub objects_generated: bool,
    /// The layout descriptor is bound.
    pub layout_bound: bool,
    /// The vertex buffer is bound.
    pub vertex_buffer_bound: bool,
    /// The index buffer is bound (and, the descriptor being bound when it
    /// was bound, captured by the descriptor).
    pub index_buffer_bound: bool,
    /// The vertex data has been uploaded.
    pub vertices_uploaded: bool,
    /// The index data has been uploaded.
    pub indices_uploaded: bool,
    /// Attribute 0 has been described; the descriptor now holds the
    /// vertex-buffer association on its own.
    pub attribute_configured: bool,
    /// Attribute 0 is enabled.
    pub attribute_enabled: bool,
}

/// The state before any setup has run.
pub open spec fn initial_setup_state() -> SetupState {
    SetupState {
        objects_generated: false,
        layout_bound: false,
        vertex_buffer_bound: false,
        index_buffer_bound: false,
        vertices_uploaded: false,
        indices_uploaded: false,
        attribute_configured: false,
        attribute_enabled: false,
    }
}

/// When a step may be taken. These are the API's ordering rules: data
/// goes only into a bound buffer, the index buffer is bound and unbound
/// only under a bound descriptor (bound: so the descriptor captures it;
/// unbound: never, see below), the attribute is described only while both
/// the descriptor and the vertex buffer are bound, and the vertex buffer
/// is unbound only once the attribute has captured the association.
/// `UnbindIndexBuffer` is allowed only while no descriptor is bound:
/// unbinding it under a bound descriptor would detach it from the
/// descriptor.
pub open spec fn step_allowed(st: SetupState, step: SetupStep) -> bool {
    match step {
        SetupStep::GenObjects => !st.objects_generated,
        SetupStep::BindLayout => st.objects_generated && !st.layout_bound,
        SetupStep::BindVertexBuffer => st.objects_generated && !st.vertex_buffer_bound,
        SetupStep::UploadVertexData => st.vertex_buffer_bound && !st.vertices_uploaded,
        SetupStep::BindIndexBuffer => st.objects_generated && st.layout_bound
            && !st.index_buffer_bound,
        SetupStep::UploadIndexData => st.index_buffer_bound && !st.indices_uploaded,
        SetupStep::ConfigureAttribute => st.layout_bound && st.vertex_buffer_bound
            && !st.attribute_configured,
        SetupStep::EnableAttribute => st.layout_bound && st.attribute_configured
            && !st.attribute_enabled,
        SetupStep::UnbindVertexBuffer => st.vertex_buffer_bound && st.attribute_configured,
        SetupStep::UnbindIndexBuffer => st.index_buffer_bound && !st.layout_bound,
        SetupStep::UnbindLayout => st.layout_bound,
    }
}

/// The state after a step.
pub open spec fn step_next(st: SetupState, step: SetupStep) -> SetupState {
    match step {
        SetupStep::GenObjects => SetupState { objects_generated: true, ..st },
        SetupStep::BindLayout => SetupState { layout_bound: true, ..st },
        SetupStep::BindVertexBuffer => SetupState { vertex_buffer_bound: true, ..st },
        SetupStep::UploadVertexData => SetupState { vertices_uploaded: true, ..st },
        SetupStep::BindIndexBuffer => SetupState { index_buffer_bound: true, ..st },
        SetupStep::UploadIndexData => SetupState { indices_uploaded: true, ..st },
        SetupStep::ConfigureAttribute => SetupState { attribute_configured: true, ..st },
        SetupStep::EnableAttribute => SetupState { attribute_enabled: true, ..st },
        SetupStep::UnbindVertexBuffer => SetupState { vertex_buffer_bound: false, ..st },
        SetupStep::UnbindIndexBuffer => SetupState { index_buffer_bound: false, ..st },
        SetupStep::UnbindLayout => SetupState { layout_bound: false, ..st },
    }
}

/// Every step from position `i` on is allowed in the state reached by the
/// steps before it.
pub open spec fn steps_ok_from(st: SetupState, steps: Seq<SetupStep>, i: int) -> bool
    decreases steps.len() - i,
{
    if i < 0 || i >= steps.len() {
        true
    } else {
        step_allowed(st, steps[i]) && steps_ok_from(step_next(st, steps[i]), steps, i + 1)
    }
}

/// The whole sequence obeys the ordering rules, starting from `st`.
pub open spec fn steps_ok(st: SetupState, steps: Seq<SetupStep>) -> bool {
    steps_ok_from(st, steps, 0)
}

/// The state after running the steps from position `i` on.
pub open spec fn run_steps_from(st: SetupState, steps: Seq<SetupStep>, i: int) -> SetupState
    decreases steps.len() - i,
{
    if i < 0 || i >= steps.len() {
        st
    } else {
        run_steps_from(step_next(st, steps[i]), steps, i + 1)
    }
}

/// The state after running the whole sequence from `st`.
pub open spec fn run_steps(st: SetupState, steps: Seq<SetupStep>) -> SetupState {
    run_steps_from(st, steps, 0)
}

/// A finished setup: everything uploaded, the attribute described and
/// enabled, the index buffer still captured by the descriptor, and the
/// vertex buffer and the descriptor itself unbound again.
pub open spec fn setup_complete(st: SetupState) -> bool {
    &&& st.objects_generated
    &&& st.vertices_uploaded
    &&& st.indices_uploaded
    &&& st.attribute_configured
    &&& st.attribute_enabled
    &&& st.index_buffer_bound
    &&& !st.vertex_buffer_bound
    &&& !st.layout_bound
}

/// The exact sequence the demo performs.
pub open spec fn mesh_setup_seq() -> Seq<SetupStep> {
    seq![
        SetupStep::GenObjects,
        SetupStep::BindLayout,
        SetupStep::BindVertexBuffer,
        SetupStep::UploadVertexData,
        SetupStep::BindIndexBuffer,
        SetupStep::UploadIndexData,
        SetupStep::ConfigureAttribute,
        SetupStep::EnableAttribute,
        SetupStep::UnbindVertexBuffer,
        SetupStep::UnbindLayout,
    ]
}

/// The setup sequence, for the binary to execute step by step.
pub fn mesh_setup_steps() -> (v: Vec<SetupStep>)
    ensures
        v@ == mesh_setup_seq(),
        steps_ok(initial_setup_state(), v@),
        setup_complete(run_steps(initial_setup_state(), v@)),
{
    let v: Vec<SetupStep> = vec![
        SetupStep::GenObjects,
        SetupStep::BindLayout,
        SetupStep::BindVertexBuffer,
        SetupStep::UploadVertexData,
        SetupStep::BindIndexBuffer,
        SetupStep::UploadIndexData,
        SetupStep::ConfigureAttribute,
        SetupStep::EnableAttribute,
        SetupStep::UnbindVertexBuffer,
        SetupStep::UnbindLayout,
    ];
    proof {
        assert(v@ =~= mesh_setup_seq());
        lemma_mesh_setup_obeys_rules();
    }
    v
}

/// The demo's setup sequence obeys every ordering rule — in particular it
/// never unbinds the index buffer while the descriptor is bound, and it
/// unbinds the vertex buffer only after the attribute is configured — and
/// it ends with the descriptor holding the whole mesh.
pub proof fn lemma_mesh_setup_obeys_rules()
    ensures
        steps_ok(initial_setup_state(), mesh_setup_seq()),
        setup_complete(run_steps(initial_setup_state(), mesh_setup_seq())),
{
    reveal_with_fuel(steps_ok_from, 12);
    reveal_with_fuel(run_steps_from, 12);
}

} // verus!
