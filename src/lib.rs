//! Counting of an embedded runtime's allocator traffic and trace events.
//!
//! The runtime's allocator tables, the interceptor's shim functions and the
//! registry of captured originals are modelled here by their addresses, as
//! plain integers. Everything that decides (which domain a call came from,
//! whether the shims are already installed, what to install, which counter a
//! call or trace event bumps, what the report holds) is verified here; the
//! foreign calls into the runtime are made by the program around it.
pub mod counters;
pub mod domain;
pub mod history;
pub mod install;
pub mod intercept;
pub mod trace;

pub use counters::{counter_index, CounterStore, DomainCounts, ReportEntry, COUNTER_SLOTS};
pub use domain::{
    classify_context, get_allocator_str, op_metric_name, AllocOp, AllocatorDomain, RegistrySlots,
};
pub use install::{
    is_installed, plan_install, AllocatorFunctionSet, AllocatorTables, InstallState, ShimFns,
};
pub use intercept::{count_call, counter_slot};
pub use trace::{
    classify_trace_event, trace_index, trace_label, TraceCounter, TraceEventKind, TRACE_KINDS,
};
