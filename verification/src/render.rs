//! Compositor-side rules that do not touch the GPU: target sizes, the errors
//! the compositor reports, backdrop frame validation and row packing, the
//! per-frame node limit, and uniform buffer strides.

use vstd::prelude::*;
use crate::text::{decimal, push_decimal};

verus! {

/// Maximum number of glass nodes that can be drawn in one frame.
pub const MAX_GLASS_NODES: usize = 64;

/// Size in bytes of the per-node glass uniform block: 92 four-byte scalars.
pub const GLASS_UNIFORM_SIZE: u32 = 368;

/// Pixel dimensions for an offscreen render target.
#[derive(Clone, Copy, Debug, PartialEq, Eq, Structural)]
pub struct GpuSize {
    pub width: u32,
    pub height: u32,
}

impl GpuSize {
    pub fn new(width: u32, height: u32) -> (r: Self)
        ensures
            r.width == width,
            r.height == height,
    {
        GpuSize { width, height }
    }

    /// A target is usable when both dimensions are non-zero.
    pub fn is_valid(self) -> (r: bool)
        ensures
            r == (self.width > 0 && self.height > 0),
    {
        self.width > 0 && self.height > 0
    }
}

/// Errors returned while creating or feeding the headless GPU backend.
#[derive(Clone, Debug, PartialEq, Eq)]
pub enum GpuError {
    InvalidSize,
    InvalidBackgroundFrame { width: u32, height: u32, stride: u32, byte_len: usize },
    AdapterUnavailable(String),
    DeviceUnavailable(String),
    SceneNodeLimitExceeded { limit: usize },
}

/// The human-readable description of each error.
pub open spec fn error_message(e: GpuError) -> Seq<char> {
    match e {
        GpuError::InvalidSize => "offscreen target dimensions must be non-zero"@,
        GpuError::InvalidBackgroundFrame { width, height, stride, byte_len } =>
            "invalid RGBA8 backdrop frame ("@ + decimal(width as nat) + "x"@ + decimal(
                height as nat,
            ) + ", stride "@ + decimal(stride as nat) + ", "@ + decimal(byte_len as nat)
                + " bytes)"@,
        GpuError::AdapterUnavailable(error) => "no suitable GPU adapter: "@ + error@,
        GpuError::DeviceUnavailable(error) => "failed to create GPU device: "@ + error@,
        GpuError::SceneNodeLimitExceeded { limit } => "scene contains more than "@ + decimal(
            limit as nat,
        ) + " glass nodes"@,
    }
}

impl GpuError {
    /// The human-readable description of this error.
    pub fn message(&self) -> (r: String)
        ensures
            r@ == error_message(*self),
    {
        match self {
            GpuError::InvalidSize => String::from_str("offscreen target dimensions must be non-zero"),
            GpuError::InvalidBackgroundFrame { width, height, stride, byte_len } => {
                let mut s = String::from_str("invalid RGBA8 backdrop frame (");
                push_decimal(&mut s, *width as u64);
                s.append("x");
                push_decimal(&mut s, *height as u64);
                s.append(", stride ");
                push_decimal(&mut s, *stride as u64);
                s.append(", ");
                push_decimal(&mut s, *byte_len as u64);
                s.append(" bytes)");
                s
            },
            GpuError::AdapterUnavailable(error) => {
                let mut s = String::from_str("no suitable GPU adapter: ");
                s.append(error.as_str());
                s
            },
            GpuError::DeviceUnavailable(error) => {
                let mut s = String::from_str("failed to create GPU device: ");
                s.append(error.as_str());
                s
            },
            GpuError::SceneNodeLimitExceeded { limit } => {
                let mut s = String::from_str("scene contains more than ");
                push_decimal(&mut s, *limit as u64);
                s.append(" glass nodes");
                s
            },
        }
    }
}

/// Rejects an offscreen target with a zero dimension.
pub fn check_target_size(size: GpuSize) -> (r: Result<(), GpuError>)
    ensures
        r is Ok <==> size.width > 0 && size.height > 0,
        r is Err ==> r == Err::<(), GpuError>(GpuError::InvalidSize),
{
    if size.is_valid() {
        Ok(())
    } else {
        Err(GpuError::InvalidSize)
    }
}

/// Rejects a scene with more nodes than one frame can draw.
pub fn check_node_count(count: usize) -> (r: Result<(), GpuError>)
    ensures
        r is Ok <==> count <= MAX_GLASS_NODES,
        r is Err ==> r == Err::<(), GpuError>(
            GpuError::SceneNodeLimitExceeded { limit: MAX_GLASS_NODES },
        ),
{
    if count > MAX_GLASS_NODES {
        Err(GpuError::SceneNodeLimitExceeded { limit: MAX_GLASS_NODES })
    } else {
        Ok(())
    }
}

/// The dynamic-offset stride of one glass uniform block: the block size
/// rounded up to the device's minimum uniform offset alignment (an alignment
/// of zero counts as one).
pub open spec fn uniform_stride_spec(min_alignment: u32) -> int {
    let a: int = if min_alignment == 0 { 1 } else { min_alignment as int };
    ((GLASS_UNIFORM_SIZE as int + a - 1) / a) * a
}

/// Rounds the glass uniform block size up to a multiple of the device's
/// minimum uniform buffer offset alignment.
pub fn uniform_stride(min_alignment: u32) -> (r: u32)
    ensures
        r == uniform_stride_spec(min_alignment),
        r >= GLASS_UNIFORM_SIZE,
        r % (if min_alignment == 0 { 1 } else { min_alignment }) == 0,
{
    let alignment: u32 = if min_alignment == 0 { 1 } else { min_alignment };
    let blocks: u32 = GLASS_UNIFORM_SIZE / alignment + if GLASS_UNIFORM_SIZE % alignment == 0 { 0 } else { 1 };
    proof {
        let a = alignment as int;
        let s = GLASS_UNIFORM_SIZE as int;
        assert(blocks as int == (s + a - 1) / a) by (nonlinear_arith)
            requires
                a >= 1,
                s == 368,
                blocks as int == s / a + if s % a == 0 { 0int } else { 1int },
        ;
        assert(blocks as int * a >= 368 && (blocks as int * a) % a == 0) by (nonlinear_arith)
            requires
                a >= 1,
                blocks as int == (368 + a - 1) / a,
        ;
        assert(a >= 368 ==> blocks as int * a == a) by (nonlinear_arith)
            requires
                a >= 1,
                blocks as int == (368 + a - 1) / a,
        ;
        assert(a < 368 ==> blocks as int * a < 736) by (nonlinear_arith)
            requires
                a >= 1,
                blocks as int == (368 + a - 1) / a,
        ;
        assert(blocks as int * alignment as int <= u32::MAX);
    }
    blocks * alignment
}

/// The byte at `col` of row `row` in a frame whose rows are `stride` bytes apart.
pub open spec fn frame_byte(bytes: Seq<u8>, row: int, col: int, stride: int) -> u8 {
    bytes[row * stride + col]
}

/// A backdrop frame is accepted when it has pixels, its tight row of
/// `4 * width` bytes fits in a `u32`, its stride covers a tight row, and it
/// holds exactly `stride * height` bytes.
pub open spec fn frame_is_valid(width: u32, height: u32, stride: u32, byte_len: nat) -> bool {
    &&& width > 0
    &&& height > 0
    &&& 4 * width <= u32::MAX
    &&& stride >= 4 * width
    &&& byte_len == stride * height
}

/// `packed` holds the first `4 * width` bytes of each of the `height` rows of
/// `frame`, whose rows are `stride` bytes apart, one row after another.
pub open spec fn is_tight_copy(packed: Seq<u8>, frame: Seq<u8>, width: u32, height: u32, stride: u32) -> bool {
    &&& packed.len() == 4 * width * height
    &&& forall|row: int, col: int|
        0 <= row < height && 0 <= col < 4 * width ==> #[trigger] frame_byte(packed, row, col, 4 * width)
            == frame_byte(frame, row, col, stride as int)
}

proof fn lemma_row_bounds(row: int, col: int, stride: int, height: int)
    requires
        0 <= row < height,
        0 <= col < stride,
    ensures
        0 <= row * stride,
        row * stride + col < stride * height,
        row * stride + stride <= stride * height,
{
    assert(row * stride + col < stride * height) by (nonlinear_arith)
        requires
            0 <= row < height,
            0 <= col < stride,
    ;
    assert(row * stride + stride <= stride * height) by (nonlinear_arith)
        requires
            0 <= row < height,
            0 <= col < stride,
    ;
    assert(0 <= row * stride) by (nonlinear_arith)
        requires
            0 <= row,
            0 <= col < stride,
    ;
}

/// Validates an RGBA8 backdrop frame and strips its row padding.
///
/// The frame may contain padded rows (`stride > 4 * width`). A valid frame
/// whose rows are already tight needs no copy (`Ok(None)`); a padded one is
/// returned with the padding removed (`Ok(Some(..))`). An invalid frame is
/// rejected with [`GpuError::InvalidBackgroundFrame`] describing it.
pub fn pack_background_rgba8(width: u32, height: u32, stride: u32, rgba8: &[u8]) -> (r: Result<
    Option<Vec<u8>>,
    GpuError,
>)
    ensures
        r is Ok <==> frame_is_valid(width, height, stride, rgba8@.len()),
        r is Err ==> r == Err::<Option<Vec<u8>>, GpuError>(
            GpuError::InvalidBackgroundFrame { width, height, stride, byte_len: rgba8@.len() as usize },
        ),
        r matches Ok(packed) ==> (packed is None <==> stride == 4 * width),
        r matches Ok(Some(p)) ==> is_tight_copy(p@, rgba8@, width, height, stride),
{
    let invalid = GpuError::InvalidBackgroundFrame { width, height, stride, byte_len: rgba8.len() };
    let tight: u32 = match width.checked_mul(4) {
        Some(t) => t,
        None => {
            return Err(invalid);
        },
    };
    let expected: usize = match (stride as usize).checked_mul(height as usize) {
        Some(e) => e,
        None => {
            return Err(invalid);
        },
    };
    if width == 0 || height == 0 || stride < tight || rgba8.len() != expected {
        return Err(invalid);
    }
    if stride == tight {
        return Ok(None);
    }
    let tight_len: usize = tight as usize;
    let rows: usize = height as usize;
    let step: usize = stride as usize;
    let mut packed: Vec<u8> = Vec::new();
    let mut row: usize = 0;
    while row < rows
        invariant
            row <= rows,
            rows == height,
            tight_len == 4 * width,
            step == stride,
            step >= tight_len,
            tight_len > 0,
            rgba8@.len() == step * rows,
            rgba8@.len() == expected,
            packed@.len() == row * tight_len,
            forall|r: int, c: int|
                0 <= r < row && 0 <= c < tight_len ==> #[trigger] frame_byte(packed@, r, c, tight_len as int)
                    == frame_byte(rgba8@, r, c, step as int),
        decreases rows - row,
    {
        proof {
            lemma_row_bounds(row as int, 0, step as int, rows as int);
            assert(row as int * step as int + step as int <= step as int * rows as int);
        }
        let base: usize = row * step;
        let mut col: usize = 0;
        while col < tight_len
            invariant
                row < rows,
                rows == height,
                tight_len == 4 * width,
                step == stride,
                step >= tight_len,
                rgba8@.len() == step * rows,
                rgba8@.len() == expected,
                base == row * step,
                base + step <= step * rows,
                col <= tight_len,
                packed@.len() == row * tight_len + col,
                forall|r: int, c: int|
                    0 <= r < row && 0 <= c < tight_len ==> #[trigger] frame_byte(packed@, r, c, tight_len as int)
                        == frame_byte(rgba8@, r, c, step as int),
                forall|c: int|
                    0 <= c < col ==> #[trigger] frame_byte(packed@, row as int, c, tight_len as int)
                        == frame_byte(rgba8@, row as int, c, step as int),
            decreases tight_len - col,
        {
            let ghost prev = packed@;
            packed.push(rgba8[base + col]);
            proof {
                assert forall|r: int, c: int|
                    0 <= r < row && 0 <= c < tight_len implies #[trigger] frame_byte(packed@, r, c, tight_len as int)
                        == frame_byte(rgba8@, r, c, step as int) by {
                    lemma_row_bounds(r, c, tight_len as int, row as int);
                    assert(frame_byte(packed@, r, c, tight_len as int) == frame_byte(prev, r, c, tight_len as int));
                }
                assert forall|c: int|
                    0 <= c < col + 1 implies #[trigger] frame_byte(packed@, row as int, c, tight_len as int)
                        == frame_byte(rgba8@, row as int, c, step as int) by {
                    if c < col {
                        assert(frame_byte(packed@, row as int, c, tight_len as int) == frame_byte(prev, row as int, c, tight_len as int));
                    }
                }
            }
            col = col + 1;
        }
        proof {
            assert((row + 1) * tight_len == row * tight_len + tight_len) by (nonlinear_arith);
        }
        row = row + 1;
    }
    proof {
        assert(rows * tight_len == 4 * width * height) by (nonlinear_arith)
            requires
                rows == height,
                tight_len == 4 * width,
        ;
    }
    Ok(Some(packed))
}

/// Every non-overlapping occurrence of `from` in `s`, scanning from the
/// start, replaced by `to`.
pub open spec fn replace_all(s: Seq<char>, from: Seq<char>, to: Seq<char>) -> Seq<char>
    decreases s.len(),
{
    if from.len() == 0 || s.len() < from.len() {
        s
    } else if s.take(from.len() as int) == from {
        to + replace_all(s.skip(from.len() as int), from, to)
    } else {
        seq![s[0]] + replace_all(s.skip(1), from, to)
    }
}

/// Replaces with `str::replace`, which copies `s` while substituting `to` for
/// each match of `from` found scanning left to right, matches not
/// overlapping; the contract states exactly that for a non-empty `from`.
#[verifier::external_body]
fn replace_text(s: &str, from: &str, to: &str) -> (r: String)
    requires
        from@.len() > 0,
    ensures
        r@ == replace_all(s@, from@, to@),
{
    s.replace(from, to)
}

/// The passes of the reference glass shader, each bound to its own slots.
#[derive(Clone, Copy, Debug, PartialEq, Eq, Structural)]
pub enum ReferencePass {
    Background,
    Blur,
    Main,
}

/// The fragment source with its bindings moved to the slots of `pass`.
pub open spec fn rebound_fragment(fragment: Seq<char>, pass: ReferencePass) -> Seq<char> {
    match pass {
        ReferencePass::Background => replace_all(
            replace_all(
                fragment,
                "@binding(0) var<uniform> u: Uniforms"@,
                "@binding(3) var<uniform> u: Uniforms"@,
            ),
            "@binding(1) var u_bgTexture"@,
            "@binding(0) var u_bgTexture"@,
        ),
        ReferencePass::Blur => replace_all(
            replace_all(
                replace_all(
                    fragment,
                    "@binding(0) var<uniform> u: BlurUniforms"@,
                    "@binding(3) var<uniform> u: BlurUniforms"@,
                ),
                "@binding(1) var u_prevPassTexture"@,
                "@binding(0) var u_prevPassTexture"@,
            ),
            "@binding(3) var<storage, read> u_blurWeights"@,
            "@binding(4) var<storage, read> u_blurWeights"@,
        ),
        ReferencePass::Main => replace_all(
            replace_all(
                replace_all(
                    fragment,
                    "@binding(0) var<uniform> u: Uniforms"@,
                    "@binding(3) var<uniform> u: Uniforms"@,
                ),
                "@binding(2) var u_bg"@,
                "@binding(0) var u_bg"@,
            ),
            "@binding(3) var u_sampler"@,
            "@binding(2) var u_sampler"@,
        ),
    }
}

/// Assembles a reference shader module for `pass`: the shared vertex stage,
/// a line break, then the fragment stage with its bindings moved to the
/// slots that pass uses.
pub fn reference_shader(vertex: &str, fragment: &str, pass: ReferencePass) -> (r: String)
    ensures
        r@ == vertex@ + "\n"@ + rebound_fragment(fragment@, pass),
{
    proof {
        reveal_strlit("@binding(0) var<uniform> u: Uniforms");
        reveal_strlit("@binding(1) var u_bgTexture");
        reveal_strlit("@binding(0) var<uniform> u: BlurUniforms");
        reveal_strlit("@binding(1) var u_prevPassTexture");
        reveal_strlit("@binding(3) var<storage, read> u_blurWeights");
        reveal_strlit("@binding(2) var u_bg");
        reveal_strlit("@binding(3) var u_sampler");
    }
    let rebound = match pass {
        ReferencePass::Background => {
            let step = replace_text(
                fragment,
                "@binding(0) var<uniform> u: Uniforms",
                "@binding(3) var<uniform> u: Uniforms",
            );
            replace_text(step.as_str(), "@binding(1) var u_bgTexture", "@binding(0) var u_bgTexture")
        },
        ReferencePass::Blur => {
            let step = replace_text(
                fragment,
                "@binding(0) var<uniform> u: BlurUniforms",
                "@binding(3) var<uniform> u: BlurUniforms",
            );
            let step = replace_text(
                step.as_str(),
                "@binding(1) var u_prevPassTexture",
                "@binding(0) var u_prevPassTexture",
            );
            replace_text(
                step.as_str(),
                "@binding(3) var<storage, read> u_blurWeights",
                "@binding(4) var<storage, read> u_blurWeights",
            )
        },
        ReferencePass::Main => {
            let step = replace_text(
                fragment,
                "@binding(0) var<uniform> u: Uniforms",
                "@binding(3) var<uniform> u: Uniforms",
            );
            let step = replace_text(step.as_str(), "@binding(2) var u_bg", "@binding(0) var u_bg");
            replace_text(step.as_str(), "@binding(3) var u_sampler", "@binding(2) var u_sampler")
        },
    };
    let mut module = String::from_str(vertex);
    module.append("\n");
    module.append(rebound.as_str());
    module
}

} // verus!
