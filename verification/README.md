# fiberlamp

A fiber optic lamp screensaver. `src/` is the verified library: the fiber
count limits and defaults, the multisampling modes, the lamp's bump schedule,
the layout of a frame (which segments are drawn and how each is colored, the
vertex budget, the palette lookup), the renderer's bookkeeping (sizes,
multisampling, what each pass draws, the surface format), the decisions taken
on window events and render results, and the configuration handled by the C
interfaces. `app/` is the program around it: the window and event loop
(winit), the GPU (wgpu), and the simulation and vertex math, which run on
floating point.

`tests/` exercises the library on concrete values.
