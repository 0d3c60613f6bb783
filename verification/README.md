# flo-otel

OpenTelemetry configuration for services, and W3C trace-context propagation
through gRPC metadata, as a Verus-verified library.

- `src/builder.rs`: `OtelBuilder`, which collects a service's name,
  environment, version, export endpoints and attributes, and `build`, which
  checks them into a `Config`.
- `src/grpc.rs`: `GrpcMetadataExtractor` and `GrpcMetadataInjector`, which
  read and write trace-context headers in `tonic` metadata, with the laws that
  relate them.
- `src/metadata.rs`: the calls into `tonic` metadata that the library makes,
  with the contracts they are trusted to meet.
- `app/`: installing the exporters, providers and tracing subscriber, and the
  propagation hooks that OpenTelemetry calls.
