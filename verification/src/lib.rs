//! Network maintenance toolkit core: topology model, design pre-checks,
//! device configuration synthesis, DNS ranking and diagnosis decisions.
pub mod adapter;
pub mod cli;
pub mod addr;
pub mod backup;
pub mod command;
pub mod config;
pub mod design_check;
pub mod device_ops;
pub mod dns;
pub mod graph;
pub mod keys;
pub mod logs;
pub mod net_diag;
pub mod net_set;
pub mod panel;
pub mod netsh;
pub mod powershell;
pub mod probe;
pub mod quick;
pub mod report;
pub mod seqs;
pub mod serial;
pub mod state;
pub mod text;
pub mod topo_cli;
pub mod topology;
pub mod vendor_cli;
pub mod views;
pub mod widgets;
pub mod ws;
