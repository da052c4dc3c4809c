//! The decisions of a game-streaming client: session planning, decoder selection, loss
//! recovery, controller forwarding and the host library, each with its contract.
//!
//! Everything here works on plain values. Sockets, decoders, controllers, threads and files
//! belong to the application around it, which feeds events in and performs what comes back.

pub mod audio;
pub mod buttons;
pub mod contract;
pub mod decoder;
pub mod device_laws;
pub mod ds5;
pub mod dxva;
pub mod dxva_unit;
pub mod frame;
pub mod gesture;
pub mod handoff;
pub mod launch_laws;
pub mod library;
pub mod link;
pub mod menu;
pub mod pad_control;
pub mod pad_ctl;
pub mod pad_feedback;
pub mod pad_info;
pub mod pad_laws;
pub mod pad_open;
pub mod pad_slot;
pub mod pad_table;
pub mod pad_worker;
pub mod plan;
pub mod planar;
pub mod pump;
pub mod session;
pub mod session_laws;
pub mod session_loop;
pub mod settings;
pub mod slot_laws;
pub mod supervise;
pub mod text;
pub mod video;
pub mod video_types;
pub mod window;
pub mod wire;
pub mod worker_laws;
