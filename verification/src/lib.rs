//! The decisions and computations of a glTF/GLB/OBJ model viewer: the view
//! modes and wireframe overlay, animation playback, the thumbnail camera's
//! lifetime, model statistics and their text, and the model's path handling.
pub mod assets;
pub mod paths;
pub mod playback;
pub mod stats;
pub mod text;
pub mod thumbnail;
pub mod view;
