# gltf-linux-preview

A viewer for glTF, GLB and OBJ models. The library under `src/` holds the
viewer's decisions and computations, verified with Verus; `app/` is the Bevy
program that draws the scene and the egui panels and feeds the library.

- `src/view.rs`: view modes (Rendered, Textured, Smooth, Solid), the
  wireframe overlay, what each mode shows a mesh with, automatic rotation.
- `src/playback.rs`: clip selection, pause and loop, clip names, the commands
  sent to animation players.
- `src/stats.rs`: triangulated polygon/face counts and the VRAM estimate of
  unique vertex/index buffers and unique textures, over the model hierarchy.
- `src/text.rs`: decimal text and the byte sizes shown in the model panel.
- `src/thumbnail.rs`: the lifetime of the thumbnail camera.
- `src/paths.rs`: OBJ detection and the choice of the asset directory.
- `src/assets.rs`: asset identities and the caches of derived materials and
  meshes.

Each module states its laws as public proof functions named `law_*`.
