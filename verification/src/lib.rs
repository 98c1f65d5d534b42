//! A minimal JSON-RPC 2.0 framework: the envelope, the dispatch runtime on
//! both sides of a transport, the compiler from an interface definition to a
//! dispatcher and a proxy, and a few combinators.

pub mod decimal;
pub mod dispatch;
pub mod envelope;
pub mod id;
pub mod interface;
pub mod json;
pub mod laws;
pub mod proxy;
pub mod service;
pub mod transport;
pub mod utils;

pub use dispatch::{ArgDecoder, Failure, Handler, Plan, ProtocolService};
pub use envelope::{JrpcError, JrpcId, JrpcRequest, JrpcResponse, ServerError};
pub use interface::{
    nanorpc_derive, DeriveError, InterfaceDef, Member, Method, MethodEntry, Param, Protocol,
    ReturnType,
};
pub use proxy::{ClientError, ProtocolClient, Reply};
pub use service::RpcService;
pub use transport::RpcTransport;
pub use utils::{DynRpcTransport, FnService, OrService};
