//! How much GPU work one frame asks for: the compute dispatch that moves the
//! balls and the instanced draw call that paints them.
use vstd::prelude::*;

verus! {

/// Number of invocations in one compute workgroup; the compute shader is
/// declared with this workgroup size.
pub const WORKGROUP_SIZE: usize = 128;

/// Vertices drawn per ball: a quad made of two triangles.
pub const VERTICES_PER_BALL: u32 = 6;

/// `n / d` rounded up, for a positive divisor.
pub open spec fn ceil_div(n: int, d: int) -> int
    recommends
        d > 0,
{
    (n + d - 1) / d
}

/// Number of workgroups to dispatch so that every ball gets one invocation:
/// `ball_count / 128` rounded up, truncated to `u32` as the dispatch call
/// takes a `u32`. Whenever the rounded-up quotient fits in a `u32`, the
/// workgroups cover every ball and one workgroup fewer would not.
pub fn workgroup_count(ball_count: usize) -> (count: u32)
    ensures
        count == (ceil_div(ball_count as int, WORKGROUP_SIZE as int)) as u32,
        count == ((ball_count + 127) / 128) as u32,
        (ball_count + 127) / 128 <= u32::MAX ==> {
            &&& count * 128 >= ball_count
            &&& count * 128 < ball_count + 128
        },
{
    let whole: usize = ball_count / WORKGROUP_SIZE;
    let partial: usize = if ball_count % WORKGROUP_SIZE == 0 { 0 } else { 1 };
    let total: usize = whole + partial;
    assert(total == ceil_div(ball_count as int, WORKGROUP_SIZE as int));
    total as u32
}

/// Law: the rounded-up quotient by the workgroup size is the least number
/// of workgroups whose invocations cover `n` balls.
pub proof fn lemma_workgroups_cover_exactly(n: int)
    requires
        n >= 0,
    ensures
        ceil_div(n, WORKGROUP_SIZE as int) == (n + 127) / 128,
        ceil_div(n, WORKGROUP_SIZE as int) * 128 >= n,
        ceil_div(n, WORKGROUP_SIZE as int) * 128 < n + 128,
        ceil_div(n, WORKGROUP_SIZE as int) >= 0,
{
}

/// The ranges of one instanced draw call: vertices `0..vertex_count` of
/// every instance, instances `0..instance_count`.
#[derive(Clone, Copy, Debug, PartialEq, Eq, Structural)]
pub struct DrawCall {
    pub vertex_count: u32,
    pub instance_count: u32,
}

/// The draw call that paints `ball_count` balls: one quad instance per
/// ball, the count truncated to `u32` as the draw call takes a `u32`.
pub fn draw_call(ball_count: usize) -> (call: DrawCall)
    ensures
        call.vertex_count == VERTICES_PER_BALL,
        call.instance_count == ball_count as u32,
        ball_count <= u32::MAX ==> call.instance_count == ball_count,
{
    DrawCall { vertex_count: VERTICES_PER_BALL, instance_count: ball_count as u32 }
}

} // verus!
