# tmatrix

Transfer-matrix simulation of optical multilayer stacks (reflection and
transmission spectra of thin-film stacks over a range of wavelengths).

- `src/` is the verified library. It holds what the simulation decides on
  whole numbers:
  - `stack.rs`: the checks a stack description must pass before a run
    (`validate_stack`), in order, with the error each failing check gives;
  - `layers.rs`: the order of the factors of a stack's transfer matrix
    (`layer_steps`) and the proofs that each finite layer is crossed once
    with its own thickness and that an accepted stack is never read out of
    range;
  - `schedule.rs`: when a run over many wavelengths goes parallel;
  - `polarization.rs`: the TE / TM polarizations.
- `app/` is the Python extension module and the complex floating-point
  arithmetic (Fresnel coefficients, interface and propagation matrices,
  power spectra), which follows the verified factor order.
- `tests/` runs the library on concrete stacks.
