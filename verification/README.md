# avis

An audio visualiser: it captures what the default output device plays,
takes the spectrum of each batch of samples and draws it with a shader over
the whole window.

- `src/` is the verified library: the version strings, the conversion of
  captured samples into the shared buffer (`audio`), the fixed-size window of
  samples handed to the shader (`window`), the quad's index buffer
  (`geometry`), the resize rule of the surface (`viewport`) and the decisions
  of the render loop (`render_loop`: which audio batches are rendered, which
  window events end the loop, what follows a failed render).
- `app/` is the program around it: audio capture, window, GPU set-up and the
  event loop. It reads the WGSL shader from `shader.wgsl` in the working
  directory.
