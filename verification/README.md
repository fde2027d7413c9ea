# ball_simulation

A 2D ball simulation whose physics runs in a GPU compute shader. Thousands of
balls start in an evenly spaced grid and bounce under adjustable gravity,
damping, restitution, speed cap, collision softness and timestep.

- `src/` is the verified library: the order in which balls fill the starting
  grid (`grid`), the number of workgroups and the draw call of a frame
  (`frame`), the keyboard control table (`controls`), the choice of the
  surface format (`surface`) and the reaction to event-loop events
  (`events`). Each function states its result in its contract; the laws of
  the control table and of the grid are proof functions beside them.
- `app/` is the program: window, GPU setup and passes, floating-point
  physics parameters, random colors and velocities, and printing. It asks
  the library what to do and does it.
- `tests/` runs the library on concrete values.

The program compiles in its two WGSL shaders from `app/shaders/`:
`compute_circle.wgsl` (workgroup size 128) and `draw_circles.wgsl` (entry
points `vertex_main` and `fragment_main`).

Keys: Up/Down raise/lower vertical gravity, Left/Right raise/lower
horizontal gravity, D/F damping, R/T restitution, V/B speed cap,
C/X collision softness, Z/A timestep, Space resets gravity, H prints help.
