//! In-process telemetry instrumentation: correlation contexts that tie
//! logical process ids together, duration trackers that turn finished work
//! into events, a buffering collector with an atomic drain, and the decision
//! core of a reconnecting export transport.

pub mod clock;
pub mod ctx;
pub mod decimal;
pub mod event_duration_tracker;
pub mod grpc_writer;
pub mod my_telemetry;
pub mod my_telemetry_event;
pub mod my_telemetry_to_console;
pub mod telemetry_collector;
pub mod telemetry_interface;

pub use ctx::{MyTelemetryContext, TelemetryContextIterator};
pub use event_duration_tracker::EventDurationTracker;
pub use grpc_writer::{EventGrpcTag, GrpcClient, TelemetryGrpcEvent};
pub use my_telemetry::MyTelemetry;
pub use my_telemetry_event::{TelemetryEvent, TelemetryEventTag, TelemetryEventTagsBuilder};
pub use my_telemetry_to_console::MyTelemetryToConsole;
pub use telemetry_collector::TelemtryCollector;
pub use telemetry_interface::{MyTelemetryCompiler, TelemetryInterface};
