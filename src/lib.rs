//! Consumer infrared receiver configuration: protocol graphs and their
//! dot rendering, timing tolerances, a streaming matcher over received
//! pulse trains, lircd.conf timing lowering, and the decisions of the
//! receiver front-ends (protocols, devices, key names, reports).
pub mod text;
pub mod nfa;
pub mod graphviz;
pub mod config;
pub mod timing;
pub mod keys;
pub mod devices;
pub mod decode;
pub mod matcher;
pub mod lircd;
pub mod lower;
