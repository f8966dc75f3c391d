//! Subpasses of a render pass and the dependencies between them.
use vstd::prelude::*;
use super::attachment::{self, Attachments};
use crate::format::has_flag;

verus! {

/// A set of pipeline stages.
#[derive(Debug, Copy, Clone, PartialEq, Eq, Structural)]
pub struct PipelineStages {
    pub top_of_pipe: bool,
    pub draw_indirect: bool,
    pub vertex_input: bool,
    pub vertex_shader: bool,
    pub tessellation_control_shader: bool,
    pub tessellation_evaluation_shader: bool,
    pub geometry_shader: bool,
    pub fragment_shader: bool,
    pub early_fragment_tests: bool,
    pub late_fragment_tests: bool,
    pub color_attachment_output: bool,
    pub compute_shader: bool,
    pub transfer: bool,
    pub bottom_of_pipe: bool,
    pub host: bool,
    pub all_graphics: bool,
    pub all_commands: bool,
}

impl PipelineStages {
    /// Builds an `PipelineStages` struct with none of the stages set.
    pub fn none() -> (r: PipelineStages)
        ensures
            !r.top_of_pipe,
            !r.draw_indirect,
            !r.vertex_input,
            !r.vertex_shader,
            !r.tessellation_control_shader,
            !r.tessellation_evaluation_shader,
            !r.geometry_shader,
            !r.fragment_shader,
            !r.early_fragment_tests,
            !r.late_fragment_tests,
            !r.color_attachment_output,
            !r.compute_shader,
            !r.transfer,
            !r.bottom_of_pipe,
            !r.host,
            !r.all_graphics,
            !r.all_commands,
    {
        PipelineStages {
            top_of_pipe: false,
            draw_indirect: false,
            vertex_input: false,
            vertex_shader: false,
            tessellation_control_shader: false,
            tessellation_evaluation_shader: false,
            geometry_shader: false,
            fragment_shader: false,
            early_fragment_tests: false,
            late_fragment_tests: false,
            color_attachment_output: false,
            compute_shader: false,
            transfer: false,
            bottom_of_pipe: false,
            host: false,
            all_graphics: false,
            all_commands: false,
        }
    }

    /// The Vulkan flags of the members from `top_of_pipe` to `tessellation_evaluation_shader`.
    #[verifier::opaque]
    pub open spec fn spec_low_flags(self) -> u32 {
        (if self.top_of_pipe { 0x1u32 } else { 0u32 })
            | (if self.draw_indirect { 0x2u32 } else { 0u32 })
            | (if self.vertex_input { 0x4u32 } else { 0u32 })
            | (if self.vertex_shader { 0x8u32 } else { 0u32 })
            | (if self.tessellation_control_shader { 0x10u32 } else { 0u32 })
            | (if self.tessellation_evaluation_shader { 0x20u32 } else { 0u32 })
    }

    /// The Vulkan flags of the members from `geometry_shader` to `compute_shader`.
    #[verifier::opaque]
    pub open spec fn spec_middle_flags(self) -> u32 {
        (if self.geometry_shader { 0x40u32 } else { 0u32 })
            | (if self.fragment_shader { 0x80u32 } else { 0u32 })
            | (if self.early_fragment_tests { 0x100u32 } else { 0u32 })
            | (if self.late_fragment_tests { 0x200u32 } else { 0u32 })
            | (if self.color_attachment_output { 0x400u32 } else { 0u32 })
            | (if self.compute_shader { 0x800u32 } else { 0u32 })
    }

    /// The Vulkan flags of the members from `transfer` to `all_commands`.
    #[verifier::opaque]
    pub open spec fn spec_high_flags(self) -> u32 {
        (if self.transfer { 0x1000u32 } else { 0u32 })
            | (if self.bottom_of_pipe { 0x2000u32 } else { 0u32 })
            | (if self.host { 0x4000u32 } else { 0u32 })
            | (if self.all_graphics { 0x8000u32 } else { 0u32 })
            | (if self.all_commands { 0x10000u32 } else { 0u32 })
    }

    /// The Vulkan flags (`VkPipelineStageFlags`) of this set: one bit per member.
    pub open spec fn spec_into_vulkan(self) -> u32 {
        self.spec_low_flags() | self.spec_middle_flags() | self.spec_high_flags()
    }

    /// The union of two sets: each member is set when it is set in either.
    pub open spec fn spec_union(self, rhs: PipelineStages) -> PipelineStages {
        PipelineStages {
            top_of_pipe: self.top_of_pipe || rhs.top_of_pipe,
            draw_indirect: self.draw_indirect || rhs.draw_indirect,
            vertex_input: self.vertex_input || rhs.vertex_input,
            vertex_shader: self.vertex_shader || rhs.vertex_shader,
            tessellation_control_shader: self.tessellation_control_shader || rhs.tessellation_control_shader,
            tessellation_evaluation_shader: self.tessellation_evaluation_shader || rhs.tessellation_evaluation_shader,
            geometry_shader: self.geometry_shader || rhs.geometry_shader,
            fragment_shader: self.fragment_shader || rhs.fragment_shader,
            early_fragment_tests: self.early_fragment_tests || rhs.early_fragment_tests,
            late_fragment_tests: self.late_fragment_tests || rhs.late_fragment_tests,
            color_attachment_output: self.color_attachment_output || rhs.color_attachment_output,
            compute_shader: self.compute_shader || rhs.compute_shader,
            transfer: self.transfer || rhs.transfer,
            bottom_of_pipe: self.bottom_of_pipe || rhs.bottom_of_pipe,
            host: self.host || rhs.host,
            all_graphics: self.all_graphics || rhs.all_graphics,
            all_commands: self.all_commands || rhs.all_commands,
        }
    }

    /// Returns the Vulkan flags of this set.
    pub fn into_vulkan(self) -> (r: u32)
        ensures
            r == self.spec_into_vulkan(),
    {
        reveal(PipelineStages::spec_low_flags);
        reveal(PipelineStages::spec_middle_flags);
        reveal(PipelineStages::spec_high_flags);
        ((if self.top_of_pipe { 0x1u32 } else { 0u32 })
                | (if self.draw_indirect { 0x2u32 } else { 0u32 })
                | (if self.vertex_input { 0x4u32 } else { 0u32 })
                | (if self.vertex_shader { 0x8u32 } else { 0u32 })
                | (if self.tessellation_control_shader { 0x10u32 } else { 0u32 })
                | (if self.tessellation_evaluation_shader { 0x20u32 } else { 0u32 }))
            | ((if self.geometry_shader { 0x40u32 } else { 0u32 })
                | (if self.fragment_shader { 0x80u32 } else { 0u32 })
                | (if self.early_fragment_tests { 0x100u32 } else { 0u32 })
                | (if self.late_fragment_tests { 0x200u32 } else { 0u32 })
                | (if self.color_attachment_output { 0x400u32 } else { 0u32 })
                | (if self.compute_shader { 0x800u32 } else { 0u32 }))
            | ((if self.transfer { 0x1000u32 } else { 0u32 })
                | (if self.bottom_of_pipe { 0x2000u32 } else { 0u32 })
                | (if self.host { 0x4000u32 } else { 0u32 })
                | (if self.all_graphics { 0x8000u32 } else { 0u32 })
                | (if self.all_commands { 0x10000u32 } else { 0u32 }))
    }

    /// Adds the members of `rhs` to this set.
    pub fn union_with(&mut self, rhs: PipelineStages)
        ensures
            *final(self) == old(self).spec_union(rhs),
    {
        *self = PipelineStages {
            top_of_pipe: self.top_of_pipe || rhs.top_of_pipe,
            draw_indirect: self.draw_indirect || rhs.draw_indirect,
            vertex_input: self.vertex_input || rhs.vertex_input,
            vertex_shader: self.vertex_shader || rhs.vertex_shader,
            tessellation_control_shader: self.tessellation_control_shader || rhs.tessellation_control_shader,
            tessellation_evaluation_shader: self.tessellation_evaluation_shader || rhs.tessellation_evaluation_shader,
            geometry_shader: self.geometry_shader || rhs.geometry_shader,
            fragment_shader: self.fragment_shader || rhs.fragment_shader,
            early_fragment_tests: self.early_fragment_tests || rhs.early_fragment_tests,
            late_fragment_tests: self.late_fragment_tests || rhs.late_fragment_tests,
            color_attachment_output: self.color_attachment_output || rhs.color_attachment_output,
            compute_shader: self.compute_shader || rhs.compute_shader,
            transfer: self.transfer || rhs.transfer,
            bottom_of_pipe: self.bottom_of_pipe || rhs.bottom_of_pipe,
            host: self.host || rhs.host,
            all_graphics: self.all_graphics || rhs.all_graphics,
            all_commands: self.all_commands || rhs.all_commands,
        };
    }
}

impl Default for PipelineStages {
    fn default() -> (r: PipelineStages)
        ensures
            !r.top_of_pipe,
            !r.draw_indirect,
            !r.vertex_input,
            !r.vertex_shader,
            !r.tessellation_control_shader,
            !r.tessellation_evaluation_shader,
            !r.geometry_shader,
            !r.fragment_shader,
            !r.early_fragment_tests,
            !r.late_fragment_tests,
            !r.color_attachment_output,
            !r.compute_shader,
            !r.transfer,
            !r.bottom_of_pipe,
            !r.host,
            !r.all_graphics,
            !r.all_commands,
    {
        PipelineStages::none()
    }
}

impl core::ops::BitOr for PipelineStages {
    type Output = PipelineStages;

    fn bitor(self, rhs: PipelineStages) -> (r: PipelineStages) {
        PipelineStages {
            top_of_pipe: self.top_of_pipe || rhs.top_of_pipe,
            draw_indirect: self.draw_indirect || rhs.draw_indirect,
            vertex_input: self.vertex_input || rhs.vertex_input,
            vertex_shader: self.vertex_shader || rhs.vertex_shader,
            tessellation_control_shader: self.tessellation_control_shader || rhs.tessellation_control_shader,
            tessellation_evaluation_shader: self.tessellation_evaluation_shader || rhs.tessellation_evaluation_shader,
            geometry_shader: self.geometry_shader || rhs.geometry_shader,
            fragment_shader: self.fragment_shader || rhs.fragment_shader,
            early_fragment_tests: self.early_fragment_tests || rhs.early_fragment_tests,
            late_fragment_tests: self.late_fragment_tests || rhs.late_fragment_tests,
            color_attachment_output: self.color_attachment_output || rhs.color_attachment_output,
            compute_shader: self.compute_shader || rhs.compute_shader,
            transfer: self.transfer || rhs.transfer,
            bottom_of_pipe: self.bottom_of_pipe || rhs.bottom_of_pipe,
            host: self.host || rhs.host,
            all_graphics: self.all_graphics || rhs.all_graphics,
            all_commands: self.all_commands || rhs.all_commands,
        }
    }
}

impl vstd::std_specs::ops::BitOrSpecImpl for PipelineStages {
    open spec fn obeys_bitor_spec() -> bool {
        true
    }

    open spec fn bitor_req(self, rhs: PipelineStages) -> bool {
        true
    }

    open spec fn bitor_spec(self, rhs: PipelineStages) -> PipelineStages {
        self.spec_union(rhs)
    }
}

/// The low flags of a set hold one bit per member, and no other bit.
proof fn lemma_pipeline_stages_low_flags(s: PipelineStages)
    ensures
        has_flag(s.spec_low_flags(), 0x1) == s.top_of_pipe,
        has_flag(s.spec_low_flags(), 0x2) == s.draw_indirect,
        has_flag(s.spec_low_flags(), 0x4) == s.vertex_input,
        has_flag(s.spec_low_flags(), 0x8) == s.vertex_shader,
        has_flag(s.spec_low_flags(), 0x10) == s.tessellation_control_shader,
        has_flag(s.spec_low_flags(), 0x20) == s.tessellation_evaluation_shader,
        s.spec_low_flags() & 0xffffffc0 == 0,
{
    reveal(PipelineStages::spec_low_flags);
    let (top_of_pipe, draw_indirect, vertex_input, vertex_shader, tessellation_control_shader, tessellation_evaluation_shader) = (s.top_of_pipe, s.draw_indirect, s.vertex_input, s.vertex_shader, s.tessellation_control_shader, s.tessellation_evaluation_shader);
    let x = s.spec_low_flags();
    assert(has_flag(x, 0x1) == top_of_pipe && has_flag(x, 0x2) == draw_indirect && has_flag(x, 0x4) == vertex_input && has_flag(x, 0x8) == vertex_shader && has_flag(x, 0x10) == tessellation_control_shader && has_flag(x, 0x20) == tessellation_evaluation_shader && x & 0xffffffc0 == 0) by (bit_vector)
        requires
            x == (if top_of_pipe { 0x1u32 } else { 0u32 })
            | (if draw_indirect { 0x2u32 } else { 0u32 })
            | (if vertex_input { 0x4u32 } else { 0u32 })
            | (if vertex_shader { 0x8u32 } else { 0u32 })
            | (if tessellation_control_shader { 0x10u32 } else { 0u32 })
            | (if tessellation_evaluation_shader { 0x20u32 } else { 0u32 }),
    ;
}

/// The middle flags of a set hold one bit per member, and no other bit.
proof fn lemma_pipeline_stages_middle_flags(s: PipelineStages)
    ensures
        has_flag(s.spec_middle_flags(), 0x40) == s.geometry_shader,
        has_flag(s.spec_middle_flags(), 0x80) == s.fragment_shader,
        has_flag(s.spec_middle_flags(), 0x100) == s.early_fragment_tests,
        has_flag(s.spec_middle_flags(), 0x200) == s.late_fragment_tests,
        has_flag(s.spec_middle_flags(), 0x400) == s.color_attachment_output,
        has_flag(s.spec_middle_flags(), 0x800) == s.compute_shader,
        s.spec_middle_flags() & 0xfffff03f == 0,
{
    reveal(PipelineStages::spec_middle_flags);
    let (geometry_shader, fragment_shader, early_fragment_tests, late_fragment_tests, color_attachment_output, compute_shader) = (s.geometry_shader, s.fragment_shader, s.early_fragment_tests, s.late_fragment_tests, s.color_attachment_output, s.compute_shader);
    let x = s.spec_middle_flags();
    assert(has_flag(x, 0x40) == geometry_shader && has_flag(x, 0x80) == fragment_shader && has_flag(x, 0x100) == early_fragment_tests && has_flag(x, 0x200) == late_fragment_tests && has_flag(x, 0x400) == color_attachment_output && has_flag(x, 0x800) == compute_shader && x & 0xfffff03f == 0) by (bit_vector)
        requires
            x == (if geometry_shader { 0x40u32 } else { 0u32 })
            | (if fragment_shader { 0x80u32 } else { 0u32 })
            | (if early_fragment_tests { 0x100u32 } else { 0u32 })
            | (if late_fragment_tests { 0x200u32 } else { 0u32 })
            | (if color_attachment_output { 0x400u32 } else { 0u32 })
            | (if compute_shader { 0x800u32 } else { 0u32 }),
    ;
}

/// The high flags of a set hold one bit per member, and no other bit.
proof fn lemma_pipeline_stages_high_flags(s: PipelineStages)
    ensures
        has_flag(s.spec_high_flags(), 0x1000) == s.transfer,
        has_flag(s.spec_high_flags(), 0x2000) == s.bottom_of_pipe,
        has_flag(s.spec_high_flags(), 0x4000) == s.host,
        has_flag(s.spec_high_flags(), 0x8000) == s.all_graphics,
        has_flag(s.spec_high_flags(), 0x10000) == s.all_commands,
        s.spec_high_flags() & 0xfffe0fff == 0,
{
    reveal(PipelineStages::spec_high_flags);
    let (transfer, bottom_of_pipe, host, all_graphics, all_commands) = (s.transfer, s.bottom_of_pipe, s.host, s.all_graphics, s.all_commands);
    let x = s.spec_high_flags();
    assert(has_flag(x, 0x1000) == transfer && has_flag(x, 0x2000) == bottom_of_pipe && has_flag(x, 0x4000) == host && has_flag(x, 0x8000) == all_graphics && has_flag(x, 0x10000) == all_commands && x & 0xfffe0fff == 0) by (bit_vector)
        requires
            x == (if transfer { 0x1000u32 } else { 0u32 })
            | (if bottom_of_pipe { 0x2000u32 } else { 0u32 })
            | (if host { 0x4000u32 } else { 0u32 })
            | (if all_graphics { 0x8000u32 } else { 0u32 })
            | (if all_commands { 0x10000u32 } else { 0u32 }),
    ;
}

/// Each member of a `PipelineStages` is set exactly when its bit is in the Vulkan flags.
pub proof fn lemma_pipeline_stages_bits(s: PipelineStages)
    ensures
        has_flag(s.spec_into_vulkan(), 0x1) == s.top_of_pipe,
        has_flag(s.spec_into_vulkan(), 0x2) == s.draw_indirect,
        has_flag(s.spec_into_vulkan(), 0x4) == s.vertex_input,
        has_flag(s.spec_into_vulkan(), 0x8) == s.vertex_shader,
        has_flag(s.spec_into_vulkan(), 0x10) == s.tessellation_control_shader,
        has_flag(s.spec_into_vulkan(), 0x20) == s.tessellation_evaluation_shader,
        has_flag(s.spec_into_vulkan(), 0x40) == s.geometry_shader,
        has_flag(s.spec_into_vulkan(), 0x80) == s.fragment_shader,
        has_flag(s.spec_into_vulkan(), 0x100) == s.early_fragment_tests,
        has_flag(s.spec_into_vulkan(), 0x200) == s.late_fragment_tests,
        has_flag(s.spec_into_vulkan(), 0x400) == s.color_attachment_output,
        has_flag(s.spec_into_vulkan(), 0x800) == s.compute_shader,
        has_flag(s.spec_into_vulkan(), 0x1000) == s.transfer,
        has_flag(s.spec_into_vulkan(), 0x2000) == s.bottom_of_pipe,
        has_flag(s.spec_into_vulkan(), 0x4000) == s.host,
        has_flag(s.spec_into_vulkan(), 0x8000) == s.all_graphics,
        has_flag(s.spec_into_vulkan(), 0x10000) == s.all_commands,
{
    lemma_pipeline_stages_low_flags(s);
    lemma_pipeline_stages_middle_flags(s);
    lemma_pipeline_stages_high_flags(s);
    let (l, m, h) = (s.spec_low_flags(), s.spec_middle_flags(), s.spec_high_flags());
    assert(has_flag(l | m | h, 0x1) == has_flag(l, 0x1)
        && has_flag(l | m | h, 0x2) == has_flag(l, 0x2)
        && has_flag(l | m | h, 0x4) == has_flag(l, 0x4)
        && has_flag(l | m | h, 0x8) == has_flag(l, 0x8)
        && has_flag(l | m | h, 0x10) == has_flag(l, 0x10)
        && has_flag(l | m | h, 0x20) == has_flag(l, 0x20)
        && has_flag(l | m | h, 0x40) == has_flag(m, 0x40)
        && has_flag(l | m | h, 0x80) == has_flag(m, 0x80)
        && has_flag(l | m | h, 0x100) == has_flag(m, 0x100)
        && has_flag(l | m | h, 0x200) == has_flag(m, 0x200)
        && has_flag(l | m | h, 0x400) == has_flag(m, 0x400)
        && has_flag(l | m | h, 0x800) == has_flag(m, 0x800)
        && has_flag(l | m | h, 0x1000) == has_flag(h, 0x1000)
        && has_flag(l | m | h, 0x2000) == has_flag(h, 0x2000)
        && has_flag(l | m | h, 0x4000) == has_flag(h, 0x4000)
        && has_flag(l | m | h, 0x8000) == has_flag(h, 0x8000)
        && has_flag(l | m | h, 0x10000) == has_flag(h, 0x10000)) by (bit_vector)
        requires
            l & 0xffffffc0 == 0,
            m & 0xfffff03f == 0,
            h & 0xfffe0fff == 0,
    ;
}

/// The low flags of a union are the bitwise or of those of both sets.
proof fn lemma_pipeline_stages_low_union(a: PipelineStages, b: PipelineStages)
    ensures
        a.spec_union(b).spec_low_flags() == a.spec_low_flags() | b.spec_low_flags(),
{
    reveal(PipelineStages::spec_low_flags);
    let (a_top_of_pipe, a_draw_indirect, a_vertex_input, a_vertex_shader, a_tessellation_control_shader, a_tessellation_evaluation_shader) = (a.top_of_pipe, a.draw_indirect, a.vertex_input, a.vertex_shader, a.tessellation_control_shader, a.tessellation_evaluation_shader);
    let (b_top_of_pipe, b_draw_indirect, b_vertex_input, b_vertex_shader, b_tessellation_control_shader, b_tessellation_evaluation_shader) = (b.top_of_pipe, b.draw_indirect, b.vertex_input, b.vertex_shader, b.tessellation_control_shader, b.tessellation_evaluation_shader);
    assert(((if a_top_of_pipe || b_top_of_pipe { 0x1u32 } else { 0u32 })
        | (if a_draw_indirect || b_draw_indirect { 0x2u32 } else { 0u32 })
        | (if a_vertex_input || b_vertex_input { 0x4u32 } else { 0u32 })
        | (if a_vertex_shader || b_vertex_shader { 0x8u32 } else { 0u32 })
        | (if a_tessellation_control_shader || b_tessellation_control_shader { 0x10u32 } else { 0u32 })
        | (if a_tessellation_evaluation_shader || b_tessellation_evaluation_shader { 0x20u32 } else { 0u32 })) == ((if a_top_of_pipe { 0x1u32 } else { 0u32 })
        | (if a_draw_indirect { 0x2u32 } else { 0u32 })
        | (if a_vertex_input { 0x4u32 } else { 0u32 })
        | (if a_vertex_shader { 0x8u32 } else { 0u32 })
        | (if a_tessellation_control_shader { 0x10u32 } else { 0u32 })
        | (if a_tessellation_evaluation_shader { 0x20u32 } else { 0u32 })) | ((if b_top_of_pipe { 0x1u32 } else { 0u32 })
        | (if b_draw_indirect { 0x2u32 } else { 0u32 })
        | (if b_vertex_input { 0x4u32 } else { 0u32 })
        | (if b_vertex_shader { 0x8u32 } else { 0u32 })
        | (if b_tessellation_control_shader { 0x10u32 } else { 0u32 })
        | (if b_tessellation_evaluation_shader { 0x20u32 } else { 0u32 }))) by (bit_vector);
}

/// The middle flags of a union are the bitwise or of those of both sets.
proof fn lemma_pipeline_stages_middle_union(a: PipelineStages, b: PipelineStages)
    ensures
        a.spec_union(b).spec_middle_flags() == a.spec_middle_flags() | b.spec_middle_flags(),
{
    reveal(PipelineStages::spec_middle_flags);
    let (a_geometry_shader, a_fragment_shader, a_early_fragment_tests, a_late_fragment_tests, a_color_attachment_output, a_compute_shader) = (a.geometry_shader, a.fragment_shader, a.early_fragment_tests, a.late_fragment_tests, a.color_attachment_output, a.compute_shader);
    let (b_geometry_shader, b_fragment_shader, b_early_fragment_tests, b_late_fragment_tests, b_color_attachment_output, b_compute_shader) = (b.geometry_shader, b.fragment_shader, b.early_fragment_tests, b.late_fragment_tests, b.color_attachment_output, b.compute_shader);
    assert(((if a_geometry_shader || b_geometry_shader { 0x40u32 } else { 0u32 })
        | (if a_fragment_shader || b_fragment_shader { 0x80u32 } else { 0u32 })
        | (if a_early_fragment_tests || b_early_fragment_tests { 0x100u32 } else { 0u32 })
        | (if a_late_fragment_tests || b_late_fragment_tests { 0x200u32 } else { 0u32 })
        | (if a_color_attachment_output || b_color_attachment_output { 0x400u32 } else { 0u32 })
        | (if a_compute_shader || b_compute_shader { 0x800u32 } else { 0u32 })) == ((if a_geometry_shader { 0x40u32 } else { 0u32 })
        | (if a_fragment_shader { 0x80u32 } else { 0u32 })
        | (if a_early_fragment_tests { 0x100u32 } else { 0u32 })
        | (if a_late_fragment_tests { 0x200u32 } else { 0u32 })
        | (if a_color_attachment_output { 0x400u32 } else { 0u32 })
        | (if a_compute_shader { 0x800u32 } else { 0u32 })) | ((if b_geometry_shader { 0x40u32 } else { 0u32 })
        | (if b_fragment_shader { 0x80u32 } else { 0u32 })
        | (if b_early_fragment_tests { 0x100u32 } else { 0u32 })
        | (if b_late_fragment_tests { 0x200u32 } else { 0u32 })
        | (if b_color_attachment_output { 0x400u32 } else { 0u32 })
        | (if b_compute_shader { 0x800u32 } else { 0u32 }))) by (bit_vector);
}

/// The high flags of a union are the bitwise or of those of both sets.
proof fn lemma_pipeline_stages_high_union(a: PipelineStages, b: PipelineStages)
    ensures
        a.spec_union(b).spec_high_flags() == a.spec_high_flags() | b.spec_high_flags(),
{
    reveal(PipelineStages::spec_high_flags);
    let (a_transfer, a_bottom_of_pipe, a_host, a_all_graphics, a_all_commands) = (a.transfer, a.bottom_of_pipe, a.host, a.all_graphics, a.all_commands);
    let (b_transfer, b_bottom_of_pipe, b_host, b_all_graphics, b_all_commands) = (b.transfer, b.bottom_of_pipe, b.host, b.all_graphics, b.all_commands);
    assert(((if a_transfer || b_transfer { 0x1000u32 } else { 0u32 })
        | (if a_bottom_of_pipe || b_bottom_of_pipe { 0x2000u32 } else { 0u32 })
        | (if a_host || b_host { 0x4000u32 } else { 0u32 })
        | (if a_all_graphics || b_all_graphics { 0x8000u32 } else { 0u32 })
        | (if a_all_commands || b_all_commands { 0x10000u32 } else { 0u32 })) == ((if a_transfer { 0x1000u32 } else { 0u32 })
        | (if a_bottom_of_pipe { 0x2000u32 } else { 0u32 })
        | (if a_host { 0x4000u32 } else { 0u32 })
        | (if a_all_graphics { 0x8000u32 } else { 0u32 })
        | (if a_all_commands { 0x10000u32 } else { 0u32 })) | ((if b_transfer { 0x1000u32 } else { 0u32 })
        | (if b_bottom_of_pipe { 0x2000u32 } else { 0u32 })
        | (if b_host { 0x4000u32 } else { 0u32 })
        | (if b_all_graphics { 0x8000u32 } else { 0u32 })
        | (if b_all_commands { 0x10000u32 } else { 0u32 }))) by (bit_vector);
}

/// The Vulkan flags of the union of two sets are the bitwise or of their flags.
pub proof fn lemma_pipeline_stages_union_flags(a: PipelineStages, b: PipelineStages)
    ensures
        a.spec_union(b).spec_into_vulkan() == a.spec_into_vulkan() | b.spec_into_vulkan(),
{
    lemma_pipeline_stages_low_union(a, b);
    lemma_pipeline_stages_middle_union(a, b);
    lemma_pipeline_stages_high_union(a, b);
    let (al, am, ah) = (a.spec_low_flags(), a.spec_middle_flags(), a.spec_high_flags());
    let (bl, bm, bh) = (b.spec_low_flags(), b.spec_middle_flags(), b.spec_high_flags());
    assert((al | bl) | (am | bm) | (ah | bh) == (al | am | ah) | (bl | bm | bh)) by (bit_vector);
}

/// A set of memory access kinds.
#[derive(Debug, Copy, Clone, PartialEq, Eq, Structural)]
pub struct AccessFlags {
    pub indirect_command_read: bool,
    pub index_read: bool,
    pub vertex_attribute_read: bool,
    pub uniform_read: bool,
    pub input_attachment_read: bool,
    pub shader_read: bool,
    pub shader_write: bool,
    pub color_attachment_read: bool,
    pub color_attachment_write: bool,
    pub depth_stencil_attachment_read: bool,
    pub depth_stencil_attachment_write: bool,
    pub transfer_read: bool,
    pub transfer_write: bool,
    pub host_read: bool,
    pub host_write: bool,
    pub memory_read: bool,
    pub memory_write: bool,
}

impl AccessFlags {
    /// Builds an `AccessFlags` struct with all bits set.
    pub fn all() -> (r: AccessFlags)
        ensures
            r.indirect_command_read,
            r.index_read,
            r.vertex_attribute_read,
            r.uniform_read,
            r.input_attachment_read,
            r.shader_read,
            r.shader_write,
            r.color_attachment_read,
            r.color_attachment_write,
            r.depth_stencil_attachment_read,
            r.depth_stencil_attachment_write,
            r.transfer_read,
            r.transfer_write,
            r.host_read,
            r.host_write,
            r.memory_read,
            r.memory_write,
    {
        AccessFlags {
            indirect_command_read: true,
            index_read: true,
            vertex_attribute_read: true,
            uniform_read: true,
            input_attachment_read: true,
            shader_read: true,
            shader_write: true,
            color_attachment_read: true,
            color_attachment_write: true,
            depth_stencil_attachment_read: true,
            depth_stencil_attachment_write: true,
            transfer_read: true,
            transfer_write: true,
            host_read: true,
            host_write: true,
            memory_read: true,
            memory_write: true,
        }
    }

    /// Builds an `AccessFlags` struct with none of the bits set.
    pub fn none() -> (r: AccessFlags)
        ensures
            !r.indirect_command_read,
            !r.index_read,
            !r.vertex_attribute_read,
            !r.uniform_read,
            !r.input_attachment_read,
            !r.shader_read,
            !r.shader_write,
            !r.color_attachment_read,
            !r.color_attachment_write,
            !r.depth_stencil_attachment_read,
            !r.depth_stencil_attachment_write,
            !r.transfer_read,
            !r.transfer_write,
            !r.host_read,
            !r.host_write,
            !r.memory_read,
            !r.memory_write,
    {
        AccessFlags {
            indirect_command_read: false,
            index_read: false,
            vertex_attribute_read: false,
            uniform_read: false,
            input_attachment_read: false,
            shader_read: false,
            shader_write: false,
            color_attachment_read: false,
            color_attachment_write: false,
            depth_stencil_attachment_read: false,
            depth_stencil_attachment_write: false,
            transfer_read: false,
            transfer_write: false,
            host_read: false,
            host_write: false,
            memory_read: false,
            memory_write: false,
        }
    }

    /// The Vulkan flags of the members from `indirect_command_read` to `shader_read`.
    #[verifier::opaque]
    pub open spec fn spec_low_flags(self) -> u32 {
        (if self.indirect_command_read { 0x1u32 } else { 0u32 })
            | (if self.index_read { 0x2u32 } else { 0u32 })
            | (if self.vertex_attribute_read { 0x4u32 } else { 0u32 })
            | (if self.uniform_read { 0x8u32 } else { 0u32 })
            | (if self.input_attachment_read { 0x10u32 } else { 0u32 })
            | (if self.shader_read { 0x20u32 } else { 0u32 })
    }

    /// The Vulkan flags of the members from `shader_write` to `transfer_read`.
    #[verifier::opaque]
    pub open spec fn spec_middle_flags(self) -> u32 {
        (if self.shader_write { 0x40u32 } else { 0u32 })
            | (if self.color_attachment_read { 0x80u32 } else { 0u32 })
            | (if self.color_attachment_write { 0x100u32 } else { 0u32 })
            | (if self.depth_stencil_attachment_read { 0x200u32 } else { 0u32 })
            | (if self.depth_stencil_attachment_write { 0x400u32 } else { 0u32 })
            | (if self.transfer_read { 0x800u32 } else { 0u32 })
    }

    /// The Vulkan flags of the members from `transfer_write` to `memory_write`.
    #[verifier::opaque]
    pub open spec fn spec_high_flags(self) -> u32 {
        (if self.transfer_write { 0x1000u32 } else { 0u32 })
            | (if self.host_read { 0x2000u32 } else { 0u32 })
            | (if self.host_write { 0x4000u32 } else { 0u32 })
            | (if self.memory_read { 0x8000u32 } else { 0u32 })
            | (if self.memory_write { 0x10000u32 } else { 0u32 })
    }

    /// The Vulkan flags (`VkAccessFlags`) of this set: one bit per member.
    pub open spec fn spec_into_vulkan(self) -> u32 {
        self.spec_low_flags() | self.spec_middle_flags() | self.spec_high_flags()
    }

    /// The union of two sets: each member is set when it is set in either.
    pub open spec fn spec_union(self, rhs: AccessFlags) -> AccessFlags {
        AccessFlags {
            indirect_command_read: self.indirect_command_read || rhs.indirect_command_read,
            index_read: self.index_read || rhs.index_read,
            vertex_attribute_read: self.vertex_attribute_read || rhs.vertex_attribute_read,
            uniform_read: self.uniform_read || rhs.uniform_read,
            input_attachment_read: self.input_attachment_read || rhs.input_attachment_read,
            shader_read: self.shader_read || rhs.shader_read,
            shader_write: self.shader_write || rhs.shader_write,
            color_attachment_read: self.color_attachment_read || rhs.color_attachment_read,
            color_attachment_write: self.color_attachment_write || rhs.color_attachment_write,
            depth_stencil_attachment_read: self.depth_stencil_attachment_read || rhs.depth_stencil_attachment_read,
            depth_stencil_attachment_write: self.depth_stencil_attachment_write || rhs.depth_stencil_attachment_write,
            transfer_read: self.transfer_read || rhs.transfer_read,
            transfer_write: self.transfer_write || rhs.transfer_write,
            host_read: self.host_read || rhs.host_read,
            host_write: self.host_write || rhs.host_write,
            memory_read: self.memory_read || rhs.memory_read,
            memory_write: self.memory_write || rhs.memory_write,
        }
    }

    /// Returns the Vulkan flags of this set.
    pub fn into_vulkan(self) -> (r: u32)
        ensures
            r == self.spec_into_vulkan(),
    {
        reveal(AccessFlags::spec_low_flags);
        reveal(AccessFlags::spec_middle_flags);
        reveal(AccessFlags::spec_high_flags);
        ((if self.indirect_command_read { 0x1u32 } else { 0u32 })
                | (if self.index_read { 0x2u32 } else { 0u32 })
                | (if self.vertex_attribute_read { 0x4u32 } else { 0u32 })
                | (if self.uniform_read { 0x8u32 } else { 0u32 })
                | (if self.input_attachment_read { 0x10u32 } else { 0u32 })
                | (if self.shader_read { 0x20u32 } else { 0u32 }))
            | ((if self.shader_write { 0x40u32 } else { 0u32 })
                | (if self.color_attachment_read { 0x80u32 } else { 0u32 })
                | (if self.color_attachment_write { 0x100u32 } else { 0u32 })
                | (if self.depth_stencil_attachment_read { 0x200u32 } else { 0u32 })
                | (if self.depth_stencil_attachment_write { 0x400u32 } else { 0u32 })
                | (if self.transfer_read { 0x800u32 } else { 0u32 }))
            | ((if self.transfer_write { 0x1000u32 } else { 0u32 })
                | (if self.host_read { 0x2000u32 } else { 0u32 })
                | (if self.host_write { 0x4000u32 } else { 0u32 })
                | (if self.memory_read { 0x8000u32 } else { 0u32 })
                | (if self.memory_write { 0x10000u32 } else { 0u32 }))
    }

    /// Adds the members of `rhs` to this set.
    pub fn union_with(&mut self, rhs: AccessFlags)
        ensures
            *final(self) == old(self).spec_union(rhs),
    {
        *self = AccessFlags {
            indirect_command_read: self.indirect_command_read || rhs.indirect_command_read,
            index_read: self.index_read || rhs.index_read,
            vertex_attribute_read: self.vertex_attribute_read || rhs.vertex_attribute_read,
            uniform_read: self.uniform_read || rhs.uniform_read,
            input_attachment_read: self.input_attachment_read || rhs.input_attachment_read,
            shader_read: self.shader_read || rhs.shader_read,
            shader_write: self.shader_write || rhs.shader_write,
            color_attachment_read: self.color_attachment_read || rhs.color_attachment_read,
            color_attachment_write: self.color_attachment_write || rhs.color_attachment_write,
            depth_stencil_attachment_read: self.depth_stencil_attachment_read || rhs.depth_stencil_attachment_read,
            depth_stencil_attachment_write: self.depth_stencil_attachment_write || rhs.depth_stencil_attachment_write,
            transfer_read: self.transfer_read || rhs.transfer_read,
            transfer_write: self.transfer_write || rhs.transfer_write,
            host_read: self.host_read || rhs.host_read,
            host_write: self.host_write || rhs.host_write,
            memory_read: self.memory_read || rhs.memory_read,
            memory_write: self.memory_write || rhs.memory_write,
        };
    }
}

impl Default for AccessFlags {
    fn default() -> (r: AccessFlags)
        ensures
            !r.indirect_command_read,
            !r.index_read,
            !r.vertex_attribute_read,
            !r.uniform_read,
            !r.input_attachment_read,
            !r.shader_read,
            !r.shader_write,
            !r.color_attachment_read,
            !r.color_attachment_write,
            !r.depth_stencil_attachment_read,
            !r.depth_stencil_attachment_write,
            !r.transfer_read,
            !r.transfer_write,
            !r.host_read,
            !r.host_write,
            !r.memory_read,
            !r.memory_write,
    {
        AccessFlags::none()
    }
}

impl core::ops::BitOr for AccessFlags {
    type Output = AccessFlags;

    fn bitor(self, rhs: AccessFlags) -> (r: AccessFlags) {
        AccessFlags {
            indirect_command_read: self.indirect_command_read || rhs.indirect_command_read,
            index_read: self.index_read || rhs.index_read,
            vertex_attribute_read: self.vertex_attribute_read || rhs.vertex_attribute_read,
            uniform_read: self.uniform_read || rhs.uniform_read,
            input_attachment_read: self.input_attachment_read || rhs.input_attachment_read,
            shader_read: self.shader_read || rhs.shader_read,
            shader_write: self.shader_write || rhs.shader_write,
            color_attachment_read: self.color_attachment_read || rhs.color_attachment_read,
            color_attachment_write: self.color_attachment_write || rhs.color_attachment_write,
            depth_stencil_attachment_read: self.depth_stencil_attachment_read || rhs.depth_stencil_attachment_read,
            depth_stencil_attachment_write: self.depth_stencil_attachment_write || rhs.depth_stencil_attachment_write,
            transfer_read: self.transfer_read || rhs.transfer_read,
            transfer_write: self.transfer_write || rhs.transfer_write,
            host_read: self.host_read || rhs.host_read,
            host_write: self.host_write || rhs.host_write,
            memory_read: self.memory_read || rhs.memory_read,
            memory_write: self.memory_write || rhs.memory_write,
        }
    }
}

impl vstd::std_specs::ops::BitOrSpecImpl for AccessFlags {
    open spec fn obeys_bitor_spec() -> bool {
        true
    }

    open spec fn bitor_req(self, rhs: AccessFlags) -> bool {
        true
    }

    open spec fn bitor_spec(self, rhs: AccessFlags) -> AccessFlags {
        self.spec_union(rhs)
    }
}

/// The low flags of a set hold one bit per member, and no other bit.
proof fn lemma_access_flags_low_flags(s: AccessFlags)
    ensures
        has_flag(s.spec_low_flags(), 0x1) == s.indirect_command_read,
        has_flag(s.spec_low_flags(), 0x2) == s.index_read,
        has_flag(s.spec_low_flags(), 0x4) == s.vertex_attribute_read,
        has_flag(s.spec_low_flags(), 0x8) == s.uniform_read,
        has_flag(s.spec_low_flags(), 0x10) == s.input_attachment_read,
        has_flag(s.spec_low_flags(), 0x20) == s.shader_read,
        s.spec_low_flags() & 0xffffffc0 == 0,
{
    reveal(AccessFlags::spec_low_flags);
    let (indirect_command_read, index_read, vertex_attribute_read, uniform_read, input_attachment_read, shader_read) = (s.indirect_command_read, s.index_read, s.vertex_attribute_read, s.uniform_read, s.input_attachment_read, s.shader_read);
    let x = s.spec_low_flags();
    assert(has_flag(x, 0x1) == indirect_command_read && has_flag(x, 0x2) == index_read && has_flag(x, 0x4) == vertex_attribute_read && has_flag(x, 0x8) == uniform_read && has_flag(x, 0x10) == input_attachment_read && has_flag(x, 0x20) == shader_read && x & 0xffffffc0 == 0) by (bit_vector)
        requires
            x == (if indirect_command_read { 0x1u32 } else { 0u32 })
            | (if index_read { 0x2u32 } else { 0u32 })
            | (if vertex_attribute_read { 0x4u32 } else { 0u32 })
            | (if uniform_read { 0x8u32 } else { 0u32 })
            | (if input_attachment_read { 0x10u32 } else { 0u32 })
            | (if shader_read { 0x20u32 } else { 0u32 }),
    ;
}

/// The middle flags of a set hold one bit per member, and no other bit.
proof fn lemma_access_flags_middle_flags(s: AccessFlags)
    ensures
        has_flag(s.spec_middle_flags(), 0x40) == s.shader_write,
        has_flag(s.spec_middle_flags(), 0x80) == s.color_attachment_read,
        has_flag(s.spec_middle_flags(), 0x100) == s.color_attachment_write,
        has_flag(s.spec_middle_flags(), 0x200) == s.depth_stencil_attachment_read,
        has_flag(s.spec_middle_flags(), 0x400) == s.depth_stencil_attachment_write,
        has_flag(s.spec_middle_flags(), 0x800) == s.transfer_read,
        s.spec_middle_flags() & 0xfffff03f == 0,
{
    reveal(AccessFlags::spec_middle_flags);
    let (shader_write, color_attachment_read, color_attachment_write, depth_stencil_attachment_read, depth_stencil_attachment_write, transfer_read) = (s.shader_write, s.color_attachment_read, s.color_attachment_write, s.depth_stencil_attachment_read, s.depth_stencil_attachment_write, s.transfer_read);
    let x = s.spec_middle_flags();
    assert(has_flag(x, 0x40) == shader_write && has_flag(x, 0x80) == color_attachment_read && has_flag(x, 0x100) == color_attachment_write && has_flag(x, 0x200) == depth_stencil_attachment_read && has_flag(x, 0x400) == depth_stencil_attachment_write && has_flag(x, 0x800) == transfer_read && x & 0xfffff03f == 0) by (bit_vector)
        requires
            x == (if shader_write { 0x40u32 } else { 0u32 })
            | (if color_attachment_read { 0x80u32 } else { 0u32 })
            | (if color_attachment_write { 0x100u32 } else { 0u32 })
            | (if depth_stencil_attachment_read { 0x200u32 } else { 0u32 })
            | (if depth_stencil_attachment_write { 0x400u32 } else { 0u32 })
            | (if transfer_read { 0x800u32 } else { 0u32 }),
    ;
}

/// The high flags of a set hold one bit per member, and no other bit.
proof fn lemma_access_flags_high_flags(s: AccessFlags)
    ensures
        has_flag(s.spec_high_flags(), 0x1000) == s.transfer_write,
        has_flag(s.spec_high_flags(), 0x2000) == s.host_read,
        has_flag(s.spec_high_flags(), 0x4000) == s.host_write,
        has_flag(s.spec_high_flags(), 0x8000) == s.memory_read,
        has_flag(s.spec_high_flags(), 0x10000) == s.memory_write,
        s.spec_high_flags() & 0xfffe0fff == 0,
{
    reveal(AccessFlags::spec_high_flags);
    let (transfer_write, host_read, host_write, memory_read, memory_write) = (s.transfer_write, s.host_read, s.host_write, s.memory_read, s.memory_write);
    let x = s.spec_high_flags();
    assert(has_flag(x, 0x1000) == transfer_write && has_flag(x, 0x2000) == host_read && has_flag(x, 0x4000) == host_write && has_flag(x, 0x8000) == memory_read && has_flag(x, 0x10000) == memory_write && x & 0xfffe0fff == 0) by (bit_vector)
        requires
            x == (if transfer_write { 0x1000u32 } else { 0u32 })
            | (if host_read { 0x2000u32 } else { 0u32 })
            | (if host_write { 0x4000u32 } else { 0u32 })
            | (if memory_read { 0x8000u32 } else { 0u32 })
            | (if memory_write { 0x10000u32 } else { 0u32 }),
    ;
}

/// Each member of an `AccessFlags` is set exactly when its bit is in the Vulkan flags.
pub proof fn lemma_access_flags_bits(s: AccessFlags)
    ensures
        has_flag(s.spec_into_vulkan(), 0x1) == s.indirect_command_read,
        has_flag(s.spec_into_vulkan(), 0x2) == s.index_read,
        has_flag(s.spec_into_vulkan(), 0x4) == s.vertex_attribute_read,
        has_flag(s.spec_into_vulkan(), 0x8) == s.uniform_read,
        has_flag(s.spec_into_vulkan(), 0x10) == s.input_attachment_read,
        has_flag(s.spec_into_vulkan(), 0x20) == s.shader_read,
        has_flag(s.spec_into_vulkan(), 0x40) == s.shader_write,
        has_flag(s.spec_into_vulkan(), 0x80) == s.color_attachment_read,
        has_flag(s.spec_into_vulkan(), 0x100) == s.color_attachment_write,
        has_flag(s.spec_into_vulkan(), 0x200) == s.depth_stencil_attachment_read,
        has_flag(s.spec_into_vulkan(), 0x400) == s.depth_stencil_attachment_write,
        has_flag(s.spec_into_vulkan(), 0x800) == s.transfer_read,
        has_flag(s.spec_into_vulkan(), 0x1000) == s.transfer_write,
        has_flag(s.spec_into_vulkan(), 0x2000) == s.host_read,
        has_flag(s.spec_into_vulkan(), 0x4000) == s.host_write,
        has_flag(s.spec_into_vulkan(), 0x8000) == s.memory_read,
        has_flag(s.spec_into_vulkan(), 0x10000) == s.memory_write,
{
    lemma_access_flags_low_flags(s);
    lemma_access_flags_middle_flags(s);
    lemma_access_flags_high_flags(s);
    let (l, m, h) = (s.spec_low_flags(), s.spec_middle_flags(), s.spec_high_flags());
    assert(has_flag(l | m | h, 0x1) == has_flag(l, 0x1)
        && has_flag(l | m | h, 0x2) == has_flag(l, 0x2)
        && has_flag(l | m | h, 0x4) == has_flag(l, 0x4)
        && has_flag(l | m | h, 0x8) == has_flag(l, 0x8)
        && has_flag(l | m | h, 0x10) == has_flag(l, 0x10)
        && has_flag(l | m | h, 0x20) == has_flag(l, 0x20)
        && has_flag(l | m | h, 0x40) == has_flag(m, 0x40)
        && has_flag(l | m | h, 0x80) == has_flag(m, 0x80)
        && has_flag(l | m | h, 0x100) == has_flag(m, 0x100)
        && has_flag(l | m | h, 0x200) == has_flag(m, 0x200)
        && has_flag(l | m | h, 0x400) == has_flag(m, 0x400)
        && has_flag(l | m | h, 0x800) == has_flag(m, 0x800)
        && has_flag(l | m | h, 0x1000) == has_flag(h, 0x1000)
        && has_flag(l | m | h, 0x2000) == has_flag(h, 0x2000)
        && has_flag(l | m | h, 0x4000) == has_flag(h, 0x4000)
        && has_flag(l | m | h, 0x8000) == has_flag(h, 0x8000)
        && has_flag(l | m | h, 0x10000) == has_flag(h, 0x10000)) by (bit_vector)
        requires
            l & 0xffffffc0 == 0,
            m & 0xfffff03f == 0,
            h & 0xfffe0fff == 0,
    ;
}

/// The low flags of a union are the bitwise or of those of both sets.
proof fn lemma_access_flags_low_union(a: AccessFlags, b: AccessFlags)
    ensures
        a.spec_union(b).spec_low_flags() == a.spec_low_flags() | b.spec_low_flags(),
{
    reveal(AccessFlags::spec_low_flags);
    let (a_indirect_command_read, a_index_read, a_vertex_attribute_read, a_uniform_read, a_input_attachment_read, a_shader_read) = (a.indirect_command_read, a.index_read, a.vertex_attribute_read, a.uniform_read, a.input_attachment_read, a.shader_read);
    let (b_indirect_command_read, b_index_read, b_vertex_attribute_read, b_uniform_read, b_input_attachment_read, b_shader_read) = (b.indirect_command_read, b.index_read, b.vertex_attribute_read, b.uniform_read, b.input_attachment_read, b.shader_read);
    assert(((if a_indirect_command_read || b_indirect_command_read { 0x1u32 } else { 0u32 })
        | (if a_index_read || b_index_read { 0x2u32 } else { 0u32 })
        | (if a_vertex_attribute_read || b_vertex_attribute_read { 0x4u32 } else { 0u32 })
        | (if a_uniform_read || b_uniform_read { 0x8u32 } else { 0u32 })
        | (if a_input_attachment_read || b_input_attachment_read { 0x10u32 } else { 0u32 })
        | (if a_shader_read || b_shader_read { 0x20u32 } else { 0u32 })) == ((if a_indirect_command_read { 0x1u32 } else { 0u32 })
        | (if a_index_read { 0x2u32 } else { 0u32 })
        | (if a_vertex_attribute_read { 0x4u32 } else { 0u32 })
        | (if a_uniform_read { 0x8u32 } else { 0u32 })
        | (if a_input_attachment_read { 0x10u32 } else { 0u32 })
        | (if a_shader_read { 0x20u32 } else { 0u32 })) | ((if b_indirect_command_read { 0x1u32 } else { 0u32 })
        | (if b_index_read { 0x2u32 } else { 0u32 })
        | (if b_vertex_attribute_read { 0x4u32 } else { 0u32 })
        | (if b_uniform_read { 0x8u32 } else { 0u32 })
        | (if b_input_attachment_read { 0x10u32 } else { 0u32 })
        | (if b_shader_read { 0x20u32 } else { 0u32 }))) by (bit_vector);
}

/// The middle flags of a union are the bitwise or of those of both sets.
proof fn lemma_access_flags_middle_union(a: AccessFlags, b: AccessFlags)
    ensures
        a.spec_union(b).spec_middle_flags() == a.spec_middle_flags() | b.spec_middle_flags(),
{
    reveal(AccessFlags::spec_middle_flags);
    let (a_shader_write, a_color_attachment_read, a_color_attachment_write, a_depth_stencil_attachment_read, a_depth_stencil_attachment_write, a_transfer_read) = (a.shader_write, a.color_attachment_read, a.color_attachment_write, a.depth_stencil_attachment_read, a.depth_stencil_attachment_write, a.transfer_read);
    let (b_shader_write, b_color_attachment_read, b_color_attachment_write, b_depth_stencil_attachment_read, b_depth_stencil_attachment_write, b_transfer_read) = (b.shader_write, b.color_attachment_read, b.color_attachment_write, b.depth_stencil_attachment_read, b.depth_stencil_attachment_write, b.transfer_read);
    assert(((if a_shader_write || b_shader_write { 0x40u32 } else { 0u32 })
        | (if a_color_attachment_read || b_color_attachment_read { 0x80u32 } else { 0u32 })
        | (if a_color_attachment_write || b_color_attachment_write { 0x100u32 } else { 0u32 })
        | (if a_depth_stencil_attachment_read || b_depth_stencil_attachment_read { 0x200u32 } else { 0u32 })
        | (if a_depth_stencil_attachment_write || b_depth_stencil_attachment_write { 0x400u32 } else { 0u32 })
        | (if a_transfer_read || b_transfer_read { 0x800u32 } else { 0u32 })) == ((if a_shader_write { 0x40u32 } else { 0u32 })
        | (if a_color_attachment_read { 0x80u32 } else { 0u32 })
        | (if a_color_attachment_write { 0x100u32 } else { 0u32 })
        | (if a_depth_stencil_attachment_read { 0x200u32 } else { 0u32 })
        | (if a_depth_stencil_attachment_write { 0x400u32 } else { 0u32 })
        | (if a_transfer_read { 0x800u32 } else { 0u32 })) | ((if b_shader_write { 0x40u32 } else { 0u32 })
        | (if b_color_attachment_read { 0x80u32 } else { 0u32 })
        | (if b_color_attachment_write { 0x100u32 } else { 0u32 })
        | (if b_depth_stencil_attachment_read { 0x200u32 } else { 0u32 })
        | (if b_depth_stencil_attachment_write { 0x400u32 } else { 0u32 })
        | (if b_transfer_read { 0x800u32 } else { 0u32 }))) by (bit_vector);
}

/// The high flags of a union are the bitwise or of those of both sets.
proof fn lemma_access_flags_high_union(a: AccessFlags, b: AccessFlags)
    ensures
        a.spec_union(b).spec_high_flags() == a.spec_high_flags() | b.spec_high_flags(),
{
    reveal(AccessFlags::spec_high_flags);
    let (a_transfer_write, a_host_read, a_host_write, a_memory_read, a_memory_write) = (a.transfer_write, a.host_read, a.host_write, a.memory_read, a.memory_write);
    let (b_transfer_write, b_host_read, b_host_write, b_memory_read, b_memory_write) = (b.transfer_write, b.host_read, b.host_write, b.memory_read, b.memory_write);
    assert(((if a_transfer_write || b_transfer_write { 0x1000u32 } else { 0u32 })
        | (if a_host_read || b_host_read { 0x2000u32 } else { 0u32 })
        | (if a_host_write || b_host_write { 0x4000u32 } else { 0u32 })
        | (if a_memory_read || b_memory_read { 0x8000u32 } else { 0u32 })
        | (if a_memory_write || b_memory_write { 0x10000u32 } else { 0u32 })) == ((if a_transfer_write { 0x1000u32 } else { 0u32 })
        | (if a_host_read { 0x2000u32 } else { 0u32 })
        | (if a_host_write { 0x4000u32 } else { 0u32 })
        | (if a_memory_read { 0x8000u32 } else { 0u32 })
        | (if a_memory_write { 0x10000u32 } else { 0u32 })) | ((if b_transfer_write { 0x1000u32 } else { 0u32 })
        | (if b_host_read { 0x2000u32 } else { 0u32 })
        | (if b_host_write { 0x4000u32 } else { 0u32 })
        | (if b_memory_read { 0x8000u32 } else { 0u32 })
        | (if b_memory_write { 0x10000u32 } else { 0u32 }))) by (bit_vector);
}

/// The Vulkan flags of the union of two sets are the bitwise or of their flags.
pub proof fn lemma_access_flags_union_flags(a: AccessFlags, b: AccessFlags)
    ensures
        a.spec_union(b).spec_into_vulkan() == a.spec_into_vulkan() | b.spec_into_vulkan(),
{
    lemma_access_flags_low_union(a, b);
    lemma_access_flags_middle_union(a, b);
    lemma_access_flags_high_union(a, b);
    let (al, am, ah) = (a.spec_low_flags(), a.spec_middle_flags(), a.spec_high_flags());
    let (bl, bm, bh) = (b.spec_low_flags(), b.spec_middle_flags(), b.spec_high_flags());
    assert((al | bl) | (am | bm) | (ah | bh) == (al | am | ah) | (bl | bm | bh)) by (bit_vector);
}

/// Describes one of the passes of a render pass.
///
/// # Restrictions
///
/// - The number of color attachments must be less than the limit of the physical device.
/// - All the attachments in `color_attachments` and `depth_stencil` must have the same
///   samples count.
/// - If any attachment is used as both an input attachment and a color or
///   depth/stencil attachment, then each use must use the same layout.
/// - Elements of `preserve_attachments` must not be used in any of the other members.
/// - If `resolve_attachments` is not empty, then all the resolve attachments must be attachments
///   with 1 sample and all the color attachments must have more than 1 sample.
/// - If `resolve_attachments` is not empty, all the resolve attachments must have the same format
///   as the color attachments.
/// - If the first use of an attachment in this renderpass is as an input attachment and the
///   attachment is not also used as a color or depth/stencil attachment in the same subpass,
///   then the loading operation must not be `Clear`.
#[derive(Debug, Clone)]
pub struct Subpass {
    /// Indices and layouts of attachments to use as color attachments.
    pub color_attachments: Vec<attachment::Reference>,
    /// Index and layout of the attachment to use as depth-stencil attachment.
    pub depth_stencil: Option<attachment::Reference>,
    /// Indices and layouts of attachments to use as input attachments.
    pub input_attachments: Vec<attachment::Reference>,
    /// If not empty, each color attachment will be resolved into each corresponding entry of
    /// this list.
    ///
    /// If this value is not empty, it **must** be the same length as `color_attachments`.
    pub resolve_attachments: Vec<attachment::Reference>,
    /// Indices of attachments that will be preserved during this pass.
    pub preserve_attachments: Vec<usize>,
}

impl Subpass {
    /// A borrowed view of this subpass.
    pub fn as_ref(&self) -> (r: SubpassRef<'_>)
        ensures
            r.color_attachments@ == self.color_attachments@,
            r.depth_stencil == (match self.depth_stencil {
                Some(d) => Some(&d),
                None => None::<&attachment::Reference>,
            }),
            r.input_attachments@ == self.input_attachments@,
            r.resolve_attachments@ == self.resolve_attachments@,
            r.preserve_attachments@ == self.preserve_attachments@,
    {
        SubpassRef {
            color_attachments: self.color_attachments.as_slice(),
            depth_stencil: self.depth_stencil.as_ref(),
            input_attachments: self.input_attachments.as_slice(),
            resolve_attachments: self.resolve_attachments.as_slice(),
            preserve_attachments: self.preserve_attachments.as_slice(),
        }
    }
}

/// Describes one of the passes of a render pass, borrowing its attachment
/// references (see [`Subpass`] for the restrictions).
#[derive(Debug, Clone, Copy)]
pub struct SubpassRef<'r> {
    /// Indices and layouts of attachments to use as color attachments.
    pub color_attachments: &'r [attachment::Reference],
    /// Index and layout of the attachment to use as depth-stencil attachment.
    pub depth_stencil: Option<&'r attachment::Reference>,
    /// Indices and layouts of attachments to use as input attachments.
    pub input_attachments: &'r [attachment::Reference],
    /// If not empty, each color attachment will be resolved into each corresponding entry of
    /// this list.
    pub resolve_attachments: &'r [attachment::Reference],
    /// Indices of attachments that will be preserved during this pass.
    pub preserve_attachments: &'r [usize],
}

/// The Vulkan description of a subpass dependency (`VkSubpassDependency`).
#[derive(Debug, Clone, Copy, PartialEq, Eq, Structural)]
pub struct SubpassDependency {
    pub src_subpass: u32,
    pub dst_subpass: u32,
    pub src_stage_mask: u32,
    pub dst_stage_mask: u32,
    pub src_access_mask: u32,
    pub dst_access_mask: u32,
    pub dependency_flags: u32,
}

/// Describes a dependency between two subpasses of a render pass.
///
/// The implementation is allowed to change the order of the passes within a render pass, unless
/// you specify that there exists a dependency between two passes (ie. the result of one will be
/// used as the input of another one).
#[derive(Debug, Clone, Copy, PartialEq, Eq, Structural)]
pub struct Dependency {
    /// Index of the subpass that writes the data that `destination_subpass` is going to use.
    pub source_subpass: u32,
    /// Index of the subpass that reads the data that `source_subpass` wrote.
    pub destination_subpass: u32,
    /// The pipeline stages that must be finished on the previous subpass before the destination
    /// subpass can start.
    pub source_stages: PipelineStages,
    /// The pipeline stages of the destination subpass that must wait for the source to be finished.
    /// Stages that are earlier of the stages specified here can start before the source is
    /// finished.
    pub destination_stages: PipelineStages,
    /// The way the source subpass accesses the attachments on which we depend.
    pub source_access: AccessFlags,
    /// The way the destination subpass accesses the attachments on which we depend.
    pub destination_access: AccessFlags,
    /// If false, then the whole subpass must be finished for the next one to start. If true, then
    /// the implementation can start the new subpass for some given pixels as long as the previous
    /// subpass is finished for these given pixels.
    ///
    /// In other words, if the previous subpass has some side effects on other parts of an
    /// attachment, then you should set it to false.
    ///
    /// Passing `false` is always safer than passing `true`, but in practice you rarely need to
    /// pass `false`.
    pub by_region: bool,
}

impl Dependency {
    pub open spec fn spec_into_vulkan(self) -> SubpassDependency {
        SubpassDependency {
            src_subpass: self.source_subpass,
            dst_subpass: self.destination_subpass,
            src_stage_mask: self.source_stages.spec_into_vulkan(),
            dst_stage_mask: self.destination_stages.spec_into_vulkan(),
            src_access_mask: self.source_access.spec_into_vulkan(),
            dst_access_mask: self.destination_access.spec_into_vulkan(),
            dependency_flags: if self.by_region { 0x1 } else { 0 },
        }
    }

    /// The Vulkan description of this dependency; `by_region` becomes the
    /// `BY_REGION` dependency flag.
    pub fn into_vulkan(self) -> (d: SubpassDependency)
        ensures
            d == self.spec_into_vulkan(),
    {
        SubpassDependency {
            src_subpass: self.source_subpass,
            dst_subpass: self.destination_subpass,
            src_stage_mask: self.source_stages.into_vulkan(),
            dst_stage_mask: self.destination_stages.into_vulkan(),
            src_access_mask: self.source_access.into_vulkan(),
            dst_access_mask: self.destination_access.into_vulkan(),
            dependency_flags: if self.by_region { 0x1 } else { 0 },
        }
    }
}

/// What the Vulkan description of a dependency says: the subpasses it
/// links, a stage or access bit of each mask exactly for the stages and
/// accesses of the matching side (source or destination), and the
/// `BY_REGION` flag (and no other flag) exactly when `by_region` holds.
pub proof fn lemma_dependency_into_vulkan(d: Dependency)
    ensures
        d.spec_into_vulkan().src_subpass == d.source_subpass,
        d.spec_into_vulkan().dst_subpass == d.destination_subpass,
        has_flag(d.spec_into_vulkan().src_stage_mask, 0x1) == d.source_stages.top_of_pipe,
        has_flag(d.spec_into_vulkan().src_stage_mask, 0x2) == d.source_stages.draw_indirect,
        has_flag(d.spec_into_vulkan().src_stage_mask, 0x4) == d.source_stages.vertex_input,
        has_flag(d.spec_into_vulkan().src_stage_mask, 0x8) == d.source_stages.vertex_shader,
        has_flag(d.spec_into_vulkan().src_stage_mask, 0x10) == d.source_stages.tessellation_control_shader,
        has_flag(d.spec_into_vulkan().src_stage_mask, 0x20) == d.source_stages.tessellation_evaluation_shader,
        has_flag(d.spec_into_vulkan().src_stage_mask, 0x40) == d.source_stages.geometry_shader,
        has_flag(d.spec_into_vulkan().src_stage_mask, 0x80) == d.source_stages.fragment_shader,
        has_flag(d.spec_into_vulkan().src_stage_mask, 0x100) == d.source_stages.early_fragment_tests,
        has_flag(d.spec_into_vulkan().src_stage_mask, 0x200) == d.source_stages.late_fragment_tests,
        has_flag(d.spec_into_vulkan().src_stage_mask, 0x400) == d.source_stages.color_attachment_output,
        has_flag(d.spec_into_vulkan().src_stage_mask, 0x800) == d.source_stages.compute_shader,
        has_flag(d.spec_into_vulkan().src_stage_mask, 0x1000) == d.source_stages.transfer,
        has_flag(d.spec_into_vulkan().src_stage_mask, 0x2000) == d.source_stages.bottom_of_pipe,
        has_flag(d.spec_into_vulkan().src_stage_mask, 0x4000) == d.source_stages.host,
        has_flag(d.spec_into_vulkan().src_stage_mask, 0x8000) == d.source_stages.all_graphics,
        has_flag(d.spec_into_vulkan().src_stage_mask, 0x10000) == d.source_stages.all_commands,
        has_flag(d.spec_into_vulkan().dst_stage_mask, 0x1) == d.destination_stages.top_of_pipe,
        has_flag(d.spec_into_vulkan().dst_stage_mask, 0x2) == d.destination_stages.draw_indirect,
        has_flag(d.spec_into_vulkan().dst_stage_mask, 0x4) == d.destination_stages.vertex_input,
        has_flag(d.spec_into_vulkan().dst_stage_mask, 0x8) == d.destination_stages.vertex_shader,
        has_flag(d.spec_into_vulkan().dst_stage_mask, 0x10) == d.destination_stages.tessellation_control_shader,
        has_flag(d.spec_into_vulkan().dst_stage_mask, 0x20) == d.destination_stages.tessellation_evaluation_shader,
        has_flag(d.spec_into_vulkan().dst_stage_mask, 0x40) == d.destination_stages.geometry_shader,
        has_flag(d.spec_into_vulkan().dst_stage_mask, 0x80) == d.destination_stages.fragment_shader,
        has_flag(d.spec_into_vulkan().dst_stage_mask, 0x100) == d.destination_stages.early_fragment_tests,
        has_flag(d.spec_into_vulkan().dst_stage_mask, 0x200) == d.destination_stages.late_fragment_tests,
        has_flag(d.spec_into_vulkan().dst_stage_mask, 0x400) == d.destination_stages.color_attachment_output,
        has_flag(d.spec_into_vulkan().dst_stage_mask, 0x800) == d.destination_stages.compute_shader,
        has_flag(d.spec_into_vulkan().dst_stage_mask, 0x1000) == d.destination_stages.transfer,
        has_flag(d.spec_into_vulkan().dst_stage_mask, 0x2000) == d.destination_stages.bottom_of_pipe,
        has_flag(d.spec_into_vulkan().dst_stage_mask, 0x4000) == d.destination_stages.host,
        has_flag(d.spec_into_vulkan().dst_stage_mask, 0x8000) == d.destination_stages.all_graphics,
        has_flag(d.spec_into_vulkan().dst_stage_mask, 0x10000) == d.destination_stages.all_commands,
        has_flag(d.spec_into_vulkan().src_access_mask, 0x1) == d.source_access.indirect_command_read,
        has_flag(d.spec_into_vulkan().src_access_mask, 0x2) == d.source_access.index_read,
        has_flag(d.spec_into_vulkan().src_access_mask, 0x4) == d.source_access.vertex_attribute_read,
        has_flag(d.spec_into_vulkan().src_access_mask, 0x8) == d.source_access.uniform_read,
        has_flag(d.spec_into_vulkan().src_access_mask, 0x10) == d.source_access.input_attachment_read,
        has_flag(d.spec_into_vulkan().src_access_mask, 0x20) == d.source_access.shader_read,
        has_flag(d.spec_into_vulkan().src_access_mask, 0x40) == d.source_access.shader_write,
        has_flag(d.spec_into_vulkan().src_access_mask, 0x80) == d.source_access.color_attachment_read,
        has_flag(d.spec_into_vulkan().src_access_mask, 0x100) == d.source_access.color_attachment_write,
        has_flag(d.spec_into_vulkan().src_access_mask, 0x200) == d.source_access.depth_stencil_attachment_read,
        has_flag(d.spec_into_vulkan().src_access_mask, 0x400) == d.source_access.depth_stencil_attachment_write,
        has_flag(d.spec_into_vulkan().src_access_mask, 0x800) == d.source_access.transfer_read,
        has_flag(d.spec_into_vulkan().src_access_mask, 0x1000) == d.source_access.transfer_write,
        has_flag(d.spec_into_vulkan().src_access_mask, 0x2000) == d.source_access.host_read,
        has_flag(d.spec_into_vulkan().src_access_mask, 0x4000) == d.source_access.host_write,
        has_flag(d.spec_into_vulkan().src_access_mask, 0x8000) == d.source_access.memory_read,
        has_flag(d.spec_into_vulkan().src_access_mask, 0x10000) == d.source_access.memory_write,
        has_flag(d.spec_into_vulkan().dst_access_mask, 0x1) == d.destination_access.indirect_command_read,
        has_flag(d.spec_into_vulkan().dst_access_mask, 0x2) == d.destination_access.index_read,
        has_flag(d.spec_into_vulkan().dst_access_mask, 0x4) == d.destination_access.vertex_attribute_read,
        has_flag(d.spec_into_vulkan().dst_access_mask, 0x8) == d.destination_access.uniform_read,
        has_flag(d.spec_into_vulkan().dst_access_mask, 0x10) == d.destination_access.input_attachment_read,
        has_flag(d.spec_into_vulkan().dst_access_mask, 0x20) == d.destination_access.shader_read,
        has_flag(d.spec_into_vulkan().dst_access_mask, 0x40) == d.destination_access.shader_write,
        has_flag(d.spec_into_vulkan().dst_access_mask, 0x80) == d.destination_access.color_attachment_read,
        has_flag(d.spec_into_vulkan().dst_access_mask, 0x100) == d.destination_access.color_attachment_write,
        has_flag(d.spec_into_vulkan().dst_access_mask, 0x200) == d.destination_access.depth_stencil_attachment_read,
        has_flag(d.spec_into_vulkan().dst_access_mask, 0x400) == d.destination_access.depth_stencil_attachment_write,
        has_flag(d.spec_into_vulkan().dst_access_mask, 0x800) == d.destination_access.transfer_read,
        has_flag(d.spec_into_vulkan().dst_access_mask, 0x1000) == d.destination_access.transfer_write,
        has_flag(d.spec_into_vulkan().dst_access_mask, 0x2000) == d.destination_access.host_read,
        has_flag(d.spec_into_vulkan().dst_access_mask, 0x4000) == d.destination_access.host_write,
        has_flag(d.spec_into_vulkan().dst_access_mask, 0x8000) == d.destination_access.memory_read,
        has_flag(d.spec_into_vulkan().dst_access_mask, 0x10000) == d.destination_access.memory_write,
        has_flag(d.spec_into_vulkan().dependency_flags, 0x1) == d.by_region,
        d.spec_into_vulkan().dependency_flags <= 0x1,
{
    lemma_pipeline_stages_bits(d.source_stages);
    lemma_pipeline_stages_bits(d.destination_stages);
    lemma_access_flags_bits(d.source_access);
    lemma_access_flags_bits(d.destination_access);
    assert(has_flag(0x1u32, 0x1) && !has_flag(0u32, 0x1)) by (bit_vector);
}

/// A list of subpasses over a list of attachments.
pub struct Subpasses<'a> {
    attachments: &'a Attachments,
    subpasses: Vec<SubpassRef<'a>>,
}

impl<'a> Subpasses<'a> {
    /// The subpasses added so far, in order.
    pub closed spec fn spec_subpasses(&self) -> Seq<SubpassRef<'a>> {
        self.subpasses@
    }

    /// The attachments the subpasses refer to.
    pub closed spec fn spec_attachments(&self) -> &'a Attachments {
        self.attachments
    }

    pub fn new(attachments: &'a Attachments) -> (s: Subpasses<'a>)
        ensures
            s.spec_attachments() == attachments,
            s.spec_subpasses() == Seq::<SubpassRef<'a>>::empty(),
    {
        Subpasses { attachments, subpasses: Vec::new() }
    }

    pub fn attachments(&self) -> (a: &'a Attachments)
        ensures
            a == self.spec_attachments(),
    {
        self.attachments
    }

    pub fn add(&mut self, subpass: SubpassRef<'a>)
        ensures
            final(self).spec_subpasses() == old(self).spec_subpasses().push(subpass),
            final(self).spec_attachments() == old(self).spec_attachments(),
    {
        self.subpasses.push(subpass)
    }
}

/// Reference to a subpass of a render pass: the render pass (as held by
/// `R`) and the index of the subpass in it.
#[derive(Clone, PartialEq, Eq, Hash)]
pub struct Reference<R> {
    render_pass: R,
    index: u32,
}

impl<R> Reference<R> {
    pub closed spec fn spec_render_pass(&self) -> R {
        self.render_pass
    }

    pub closed spec fn spec_index(&self) -> u32 {
        self.index
    }

    /// The reference to subpass `index` of a render pass with `subpass_count`
    /// subpasses, when that subpass exists.
    pub fn new(render_pass: R, subpass_count: u32, index: u32) -> (r: Option<Reference<R>>)
        ensures
            r is Some <==> index < subpass_count,
            r matches Some(s) ==> s.spec_render_pass() == render_pass && s.spec_index() == index,
    {
        if index < subpass_count {
            Some(Reference { render_pass, index })
        } else {
            None
        }
    }

    pub fn render_pass(&self) -> (r: &R)
        ensures
            *r == self.spec_render_pass(),
    {
        &self.render_pass
    }

    pub fn index(&self) -> (i: u32)
        ensures
            i == self.spec_index(),
    {
        self.index
    }
}

} // verus!
