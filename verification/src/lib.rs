//! Library side of the wfs2map tools: the map-file template of the tile
//! server, the greeting and distance decisions of the energy monitor, and the
//! bucket-location bookkeeping of the warm S3 backend.

pub mod energy;

pub mod mapfile;
pub mod server;
pub mod transition;
