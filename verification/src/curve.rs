//! The shape of one animation frame: how the heart outline is sampled
//! and how the four concentric layers scale it.
//!
//! Coordinates are fixed-point. A base point holds micro-units, one
//! millionth of a world unit of the [-2, 2] drawing bound; a layer
//! point holds nano-units, the micro-units multiplied by the layer's
//! scale factor in thousandths, so that scaling is exact.

use vstd::prelude::*;

use crate::color::PaletteColor;
use crate::color::color_of;
use crate::color::rainbow_color;

verus! {

/// A point of the outline in fixed-point coordinates.
#[derive(Clone, Copy, Debug, PartialEq, Eq)]
pub struct Point {
    pub x: i64,
    pub y: i64,
}

/// Number of equally spaced parameter steps over one full revolution.
pub const STEPS: usize = 1000;

/// Number of concentric layers drawn per frame.
pub const LAYERS: usize = 4;

/// Per-layer growth of the scale factor, in thousandths (0.05).
pub const THICKNESS_PERMILLE: i64 = 50;

/// Denominator of the scale factor: a layer's factor is
/// `(SCALE_DENOM + layer * THICKNESS_PERMILLE) / SCALE_DENOM`.
pub const SCALE_DENOM: i64 = 1000;

/// Largest magnitude, in micro-units, of a base coordinate: the
/// normalized outline stays well inside the [-2, 2] world bound, so
/// three world units of slack cover it.
pub const COORD_BOUND: i64 = 3_000_000;

/// The scale factor of layer `k`, in thousandths: 1 + k * 0.05.
pub open spec fn layer_scale_permille(k: int) -> int {
    SCALE_DENOM + k * THICKNESS_PERMILLE
}

/// The x coordinate, in nano-units, of layer `k`'s copy of base point
/// `p`: the base coordinate times the layer's scale factor.
pub open spec fn scaled_x(p: Point, k: int) -> int {
    p.x * layer_scale_permille(k)
}

/// The y coordinate, in nano-units, of layer `k`'s copy of base point
/// `p`.
pub open spec fn scaled_y(p: Point, k: int) -> int {
    p.y * layer_scale_permille(k)
}

/// Whether a base point lies within the coordinate bound.
pub open spec fn bounded(p: Point) -> bool {
    -COORD_BOUND <= p.x <= COORD_BOUND && -COORD_BOUND <= p.y <= COORD_BOUND
}

/// Whether `q` is base point `p` scaled by layer `k`'s factor,
/// coordinate by coordinate.
pub open spec fn is_scaled(q: Point, p: Point, k: int) -> bool {
    q.x == scaled_x(p, k) && q.y == scaled_y(p, k)
}

/// A bounded coordinate times a layer factor stays far inside `i64`.
proof fn lemma_scale_in_range(x: int, f: int)
    by (nonlinear_arith)
    requires
        -COORD_BOUND <= x <= COORD_BOUND,
        0 <= f <= 1150,
    ensures
        -3_450_000_000 <= x * f <= 3_450_000_000,
{
}

/// The positions of the samples of one layer: one per step, plus the
/// closing sample, so sample `i` stands for the parameter `i / STEPS`
/// of one full revolution. The first sample is the start of the
/// revolution and the last is its end, which closes the curve.
pub fn sample_positions() -> (v: Vec<usize>)
    ensures
        v@.len() == STEPS + 1,
        forall|i: int| 0 <= i < v@.len() ==> v@[i] == i,
{
    let mut v: Vec<usize> = Vec::new();
    for i in 0..STEPS + 1
        invariant
            v@.len() == i,
            forall|j: int| 0 <= j < i ==> v@[j] == j,
    {
        v.push(i);
    }
    v
}

/// Build layer `k`: every base point scaled by the layer's factor.
fn scale_layer(base: &Vec<Point>, k: usize) -> (layer: Vec<Point>)
    requires
        k < LAYERS,
        forall|i: int| 0 <= i < base@.len() ==> bounded(#[trigger] base@[i]),
    ensures
        layer@.len() == base@.len(),
        forall|i: int| 0 <= i < base@.len() ==> is_scaled(#[trigger] layer@[i], base@[i], k as int),
{
    let factor: i64 = SCALE_DENOM + (k as i64) * THICKNESS_PERMILLE;
    assert(factor == layer_scale_permille(k as int));
    let mut layer: Vec<Point> = Vec::new();
    let n: usize = base.len();
    for j in 0..n
        invariant
            n == base@.len(),
            k < LAYERS,
            factor == layer_scale_permille(k as int),
            0 <= factor <= 1150,
            forall|i: int| 0 <= i < base@.len() ==> bounded(#[trigger] base@[i]),
            layer@.len() == j,
            forall|i: int| 0 <= i < j ==> is_scaled(#[trigger] layer@[i], base@[i], k as int),
    {
        let p = *base.get(j).unwrap();
        proof {
            lemma_scale_in_range(p.x as int, factor as int);
            lemma_scale_in_range(p.y as int, factor as int);
        }
        layer.push(Point { x: p.x * factor, y: p.y * factor });
        assert(is_scaled(layer@[j as int], base@[j as int], k as int));
    }
    layer
}

/// Build the four concentric layers of one frame from the sampled base
/// outline: layer `k` is the base outline with every coordinate
/// multiplied by the factor `1 + k * 0.05`, exactly.
pub fn build_layers(base: &Vec<Point>) -> (layers: Vec<Vec<Point>>)
    requires
        forall|i: int| 0 <= i < base@.len() ==> bounded(#[trigger] base@[i]),
    ensures
        layers@.len() == LAYERS,
        forall|k: int| 0 <= k < LAYERS ==> (#[trigger] layers@[k])@.len() == base@.len(),
        forall|k: int, i: int| 0 <= k < LAYERS && 0 <= i < base@.len() ==>
            is_scaled(#[trigger] layers@[k]@[i], base@[i], k),
{
    let mut layers: Vec<Vec<Point>> = Vec::new();
    for k in 0..LAYERS
        invariant
            forall|i: int| 0 <= i < base@.len() ==> bounded(#[trigger] base@[i]),
            layers@.len() == k,
            forall|kk: int| 0 <= kk < k ==> (#[trigger] layers@[kk])@.len() == base@.len(),
            forall|kk: int, i: int| 0 <= kk < k && 0 <= i < base@.len() ==>
                is_scaled(#[trigger] layers@[kk]@[i], base@[i], kk),
    {
        let layer = scale_layer(base, k);
        layers.push(layer);
        assert forall|i: int| 0 <= i < base@.len() implies
            is_scaled(#[trigger] layers@[k as int]@[i], base@[i], k as int) by {
            assert(layers@[k as int] == layer);
            assert(is_scaled(layer@[i], base@[i], k as int));
        }
    }
    layers
}

/// Everything one frame draws: the color the tick selects, and the
/// four scaled layers of the outline, all drawn in that color.
pub struct FrameData {
    pub color: PaletteColor,
    pub layers: Vec<Vec<Point>>,
}

/// Compute one frame from the tick and the sampled base outline: the
/// frame's color is the palette entry the tick selects, and its four
/// layers each carry one point per sample, scaled by the layer factor.
pub fn compute_frame(tick: u64, base: &Vec<Point>) -> (f: FrameData)
    requires
        base@.len() == STEPS + 1,
        forall|i: int| 0 <= i < base@.len() ==> bounded(#[trigger] base@[i]),
    ensures
        f.color == color_of(tick as int),
        f.layers@.len() == LAYERS,
        forall|k: int| 0 <= k < LAYERS ==> (#[trigger] f.layers@[k])@.len() == STEPS + 1,
        forall|k: int, i: int| 0 <= k < LAYERS && 0 <= i < base@.len() ==>
            is_scaled(#[trigger] f.layers@[k]@[i], base@[i], k),
{
    FrameData { color: rainbow_color(tick), layers: build_layers(base) }
}

/// The layers nest exactly: in thousandths, layer `k`'s copy of a base
/// point is layer 0's copy scaled by the factor `1 + k * 0.05`,
/// coordinate by coordinate.
pub proof fn lemma_layers_nested(p: Point, k: int)
    by (nonlinear_arith)
    requires
        0 <= k < LAYERS,
    ensures
        scaled_x(p, k) * SCALE_DENOM == scaled_x(p, 0) * layer_scale_permille(k),
        scaled_y(p, k) * SCALE_DENOM == scaled_y(p, 0) * layer_scale_permille(k),
{
}

/// A closed base outline stays closed in every layer: when the first
/// and last base samples coincide, the first and last points of each
/// scaled layer coincide too.
pub proof fn lemma_layers_closed(base: Seq<Point>, layers: Seq<Seq<Point>>, k: int)
    requires
        base.len() >= 1,
        0 <= k < LAYERS,
        layers.len() == LAYERS,
        layers[k].len() == base.len(),
        forall|i: int| 0 <= i < base.len() ==> is_scaled(#[trigger] layers[k][i], base[i], k),
        base[0] == base[base.len() - 1],
    ensures
        layers[k][0] == layers[k][layers[k].len() - 1],
{
    let last = base.len() - 1;
    assert(layers[k][0].x == scaled_x(base[0], k));
    assert(layers[k][last].x == scaled_x(base[last], k));
}

} // verus!
