//! Verified core of the map tiling and OSM ingestion tools.
pub mod text;
pub mod road;
pub mod water;
pub mod landuse;
pub mod sql_types;
pub mod sql_model;
pub mod tile;
pub mod terrain_mesh;
pub mod ingest;
pub mod web_input;
pub mod parser;
pub mod features;
pub mod queries;
pub mod dem;
pub mod tiled_image;
pub mod debug;
pub mod despawn;
pub mod read_cache;
pub mod keyed_map;
pub mod feature_store;
pub mod instances;
pub mod tile_sync;
pub mod view_sync;
pub mod stitch;
