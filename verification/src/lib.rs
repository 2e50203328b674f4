//! The decision core of a small desktop display shell: monitor enumeration
//! with fallback labels, lookup of a monitor by name, window-centering
//! arithmetic, and the model of the native menu bar with its id-keyed event
//! dispatch. Every function works on plain values handed in by the windowing
//! layer; the OS calls themselves (monitor queries, window moves, menu
//! construction) stay outside the library.

pub mod menu;
pub mod monitors;
pub mod text;
