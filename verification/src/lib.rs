//! A user-space cooperative thread runtime with pluggable scheduling
//! policies (round-robin, lottery, earliest-deadline-first), mutexes and
//! blocking joins, together with the city-grid world that consumes it.

pub mod exits;
pub mod thread_state;
pub mod scheduler_type;
pub mod mythreadattr;
pub mod mythread;
pub mod mymutex;
pub mod round_robin;
pub mod real_time;
pub mod lottery;
pub mod myruntime;
pub mod mypthread;

pub mod coord;
pub mod vehicle_type;
pub mod block_type;
pub mod transport_policy;
pub mod supply;
pub mod plant_status;
pub mod shop;
pub mod motor;
pub mod vehicle;
pub mod traffic_light;
pub mod control;
pub mod block;
pub mod road;
pub mod water;
pub mod dock;
pub mod shopblock;
pub mod nuclearplant;
pub mod bridge;
pub mod block_grid;
pub mod city_map;
