use vstd::prelude::*;

use crate::stack::{validation_outcome, StackShape};

verus! {

/// One factor of a stack's transfer matrix, for one wavelength.
///
/// Media are numbered from the incident medium (0) to the exit medium; the
/// finite layers are the media in between, and finite layer `i` has the
/// thickness at index `i - 1` of the thickness list.
#[derive(Clone, Copy, Debug, PartialEq, Eq, Structural)]
pub enum LayerStep {
    /// The interface matrix between medium `from` and medium `to`.
    Interface { from: usize, to: usize },
    /// The propagation matrix through finite layer `layer`, whose thickness is
    /// entry `thickness_index` of the thickness list.
    Propagate { layer: usize, thickness_index: usize },
}

/// The number of factors in the transfer matrix of a stack of `num_layers`
/// media: one interface per pair of neighbouring media and one propagation
/// per finite layer.
pub open spec fn step_count(num_layers: int) -> int {
    2 * num_layers - 3
}

/// Factor `k` of the product: even factors are the interfaces in order from
/// the incident side, and between the interfaces `i - 1 | i` and `i | i + 1`
/// stands the propagation through layer `i`.
pub open spec fn planned_step(k: int) -> LayerStep {
    let i = k / 2;
    if k % 2 == 0 {
        LayerStep::Interface { from: i as usize, to: (i + 1) as usize }
    } else {
        LayerStep::Propagate { layer: (i + 1) as usize, thickness_index: i as usize }
    }
}

/// The entries that `step` reads lie within a stack of `num_layers` media
/// with `thickness_count` thicknesses: an interface joins two neighbouring
/// media of the stack, and a propagation goes through a finite layer and reads
/// that layer's own thickness.
pub open spec fn step_within(step: LayerStep, num_layers: int, thickness_count: int) -> bool {
    match step {
        LayerStep::Interface { from, to } => from + 1 == to && to < num_layers,
        LayerStep::Propagate { layer, thickness_index } => {
            &&& 1 <= layer <= num_layers - 2
            &&& thickness_index + 1 == layer
            &&& thickness_index < thickness_count
        },
    }
}

/// The factors of the transfer matrix of a stack of `num_layers` media, in
/// the order in which they are multiplied from the left: the first interface,
/// then for each finite layer its propagation followed by the interface that
/// closes it.
pub fn layer_steps(num_layers: usize) -> (steps: Vec<LayerStep>)
    requires
        num_layers >= 2,
    ensures
        steps@.len() == step_count(num_layers as int),
        forall|k: int| 0 <= k < steps@.len() ==> #[trigger] steps@[k] == planned_step(k),
{
    let mut steps: Vec<LayerStep> = Vec::new();
    steps.push(LayerStep::Interface { from: 0, to: 1 });
    let mut i: usize = 1;
    while i < num_layers - 1
        invariant
            1 <= i <= num_layers - 1,
            steps@.len() == 2 * i - 1,
            forall|k: int| 0 <= k < steps@.len() ==> #[trigger] steps@[k] == planned_step(k),
        decreases num_layers - i,
    {
        let ghost before = steps@;
        steps.push(LayerStep::Propagate { layer: i, thickness_index: i - 1 });
        steps.push(LayerStep::Interface { from: i, to: i + 1 });
        proof {
            let m = 2 * i - 1;
            assert(planned_step(m) == LayerStep::Propagate {
                layer: i,
                thickness_index: (i - 1) as usize,
            });
            assert(planned_step(m + 1) == LayerStep::Interface { from: i, to: (i + 1) as usize });
            assert forall|k: int| 0 <= k < steps@.len() implies #[trigger] steps@[k] == planned_step(
                k,
            ) by {
                if k < before.len() {
                    assert(steps@[k] == before[k]);
                }
            }
        }
        i = i + 1;
    }
    steps
}

/// The factors of every stack start at the incident medium and end at the exit
/// medium: the first factor is the interface `0 | 1` and the last is the
/// interface between the last two media. Each finite layer `i` is crossed by
/// exactly one factor, factor `2 i - 1`, which reads thickness `i - 1`; and
/// each interface `i | i + 1` is factor `2 i` and no other.
pub proof fn lemma_steps_cross_each_layer_once(num_layers: usize)
    requires
        num_layers >= 2,
    ensures
        planned_step(0) == (LayerStep::Interface { from: 0, to: 1 }),
        planned_step(step_count(num_layers as int) - 1) == (LayerStep::Interface {
            from: (num_layers - 2) as usize,
            to: (num_layers - 1) as usize,
        }),
        forall|layer: int|
            1 <= layer <= num_layers - 2 ==> 0 <= 2 * layer - 1 < step_count(num_layers as int)
                && #[trigger] planned_step(2 * layer - 1) == (LayerStep::Propagate {
                layer: layer as usize,
                thickness_index: (layer - 1) as usize,
            }),
        forall|k: int|
            0 <= k < step_count(num_layers as int) ==> (#[trigger] planned_step(k) matches LayerStep::Propagate {
                layer: l,
                ..
            } ==> k == 2 * l - 1),
        forall|k: int|
            0 <= k < step_count(num_layers as int) ==> (#[trigger] planned_step(k) matches LayerStep::Interface {
                from: f,
                ..
            } ==> k == 2 * f),
{
}

/// Every stack that passes the checks of `validate_stack` can be computed
/// without reading outside its arrays: it has at least the two outer media,
/// its shape is that of the refractive-index array, there is one wavelength
/// per column of that array, and every factor of its transfer matrix joins
/// neighbouring media of the stack or crosses a finite layer with that
/// layer's own thickness.
pub proof fn lemma_accepted_stack_reads_within(
    n_shape: Seq<usize>,
    thickness_nonpositive: Seq<bool>,
    wavelength_nonpositive: Seq<bool>,
    angle_out_of_range: bool,
)
    requires
        validation_outcome(
            n_shape,
            thickness_nonpositive,
            wavelength_nonpositive,
            angle_out_of_range,
        ) is Ok,
    ensures
        validation_outcome(
            n_shape,
            thickness_nonpositive,
            wavelength_nonpositive,
            angle_out_of_range,
        ) matches Ok(shape) && {
            &&& shape.num_layers >= 2
            &&& n_shape.len() == 2
            &&& shape.num_layers == n_shape[0]
            &&& shape.num_wavelengths == n_shape[1]
            &&& shape.num_wavelengths == wavelength_nonpositive.len()
            &&& forall|k: int|
                0 <= k < step_count(shape.num_layers as int) ==> step_within(
                    #[trigger] planned_step(k),
                    shape.num_layers as int,
                    thickness_nonpositive.len() as int,
                )
        },
{
}

} // verus!
