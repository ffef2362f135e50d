use vstd::prelude::*;

pub mod string_map;
pub mod text;
pub mod wr_agentd;
pub mod wr_client;
pub mod wr_core;
pub mod wr_ecs;
pub mod wr_game;
pub mod wr_headless;
pub mod wr_math;
pub mod wr_physics;
pub mod wr_platform;
pub mod wr_procgeo;
pub mod wr_render_api;
pub mod wr_render_scene;
pub mod wr_render_wgpu;
pub mod wr_telemetry;
pub mod wr_tools_harness;
pub mod wr_tools_ui;
pub mod wr_world_gen;
pub mod wr_world_seed;
pub mod xtask;

verus! {
} // verus!
