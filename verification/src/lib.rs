//! Coriolis: the engine of a terminal explorer for hierarchical,
//! multi-dimensional array datasets.
//!
//! The engine knows nothing of files or terminals. It holds a variable in
//! memory, keeps track of which dimensions are on screen and where the
//! others are held, extracts the series or the grid that a view shows, maps
//! values to colors, and fits a grid onto a canvas of character cells that
//! show two pixels each. Around that it keeps the tree of a dataset as a
//! list with a cursor, searches it, and orders the entries of a directory.
//!
//! Every function is verified against its contract. Contracts speak of
//! plain mathematical models: `ViewerModel` for a viewing session,
//! `RasterModel` for a canvas, `NodeView` for a tree.
//!
//! # Modules
//!
//! - `shape`: row-major index arithmetic.
//! - `variable`: a loaded variable and its projections.
//! - `slicing`, `session`, `viewer`: the viewing session as a state machine.
//! - `view_mode`, `colormap`, `theme`: modes, palettes and colors.
//! - `raster`: heatmap geometry.
//! - `layout`, `dimension`, `coordinates`: table window, plot sampling,
//!   dimension bookkeeping, coordinate lookup.
//! - `node`, `tree`, `explorer`, `search`, `labels`: the dataset tree.
//! - `file_browser`: directory listings.
//! - `keys`: what key presses mean.
//! - `collections`, `text`: small collections and text helpers.

pub mod collections;
pub mod colormap;
pub mod coordinates;
pub mod dimension;
pub mod explorer;
pub mod file_browser;
pub mod keys;
pub mod labels;
pub mod layout;
pub mod node;
pub mod plot;
pub mod raster;
pub mod search;
pub mod session;
pub mod shape;
pub mod slicing;
pub mod text;
pub mod theme;
pub mod tree;
pub mod variable;
pub mod view_mode;
pub mod viewer;
