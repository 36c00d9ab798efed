use tmatrix::{layer_steps, validate_stack, LayerStep};

#[test]
fn bare_interface_has_one_factor() {
    assert_eq!(layer_steps(2), vec![LayerStep::Interface { from: 0, to: 1 }]);
}

#[test]
fn single_film_is_interface_propagation_interface() {
    assert_eq!(
        layer_steps(3),
        vec![
            LayerStep::Interface { from: 0, to: 1 },
            LayerStep::Propagate { layer: 1, thickness_index: 0 },
            LayerStep::Interface { from: 1, to: 2 },
        ]
    );
}

#[test]
fn each_finite_layer_is_crossed_once_with_its_own_thickness() {
    let steps = layer_steps(6);
    assert_eq!(steps.len(), 9);
    for layer in 1..5usize {
        let crossings: Vec<usize> = steps
            .iter()
            .enumerate()
            .filter(|(_, s)| matches!(s, LayerStep::Propagate { layer: l, .. } if *l == layer))
            .map(|(k, _)| k)
            .collect();
        assert_eq!(crossings, vec![2 * layer - 1]);
        assert_eq!(
            steps[2 * layer - 1],
            LayerStep::Propagate { layer, thickness_index: layer - 1 }
        );
    }
    assert_eq!(steps[0], LayerStep::Interface { from: 0, to: 1 });
    assert_eq!(steps[8], LayerStep::Interface { from: 4, to: 5 });
}

#[test]
fn every_read_of_an_accepted_stack_is_in_range() {
    let thicknesses = [false; 5];
    let wavelengths = [false; 2];
    let shape = validate_stack(&[7, 2], &thicknesses, &wavelengths, false).unwrap();
    let num_layers = shape.num_layers;
    let thickness_count = thicknesses.len();
    assert_eq!(num_layers, 7);
    assert_eq!(shape.num_wavelengths, wavelengths.len());
    for step in layer_steps(num_layers) {
        match step {
            LayerStep::Interface { from, to } => {
                assert_eq!(from + 1, to);
                assert!(to < num_layers);
            }
            LayerStep::Propagate { layer, thickness_index } => {
                assert!(layer >= 1 && layer <= num_layers - 2);
                assert_eq!(thickness_index + 1, layer);
                assert!(thickness_index < thickness_count);
            }
        }
    }
}
