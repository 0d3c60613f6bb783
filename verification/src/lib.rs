//! Configuration of OpenTelemetry for a service, and W3C trace-context
//! propagation through gRPC metadata.
pub mod builder;
pub mod grpc;
pub mod metadata;
