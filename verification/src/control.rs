//! The control protocol between the daemon and its command line: framed JSON documents over a
//! local endpoint.

pub mod client;
pub mod documents;
pub mod exchange;
pub mod frame;
pub mod location;
pub mod locator;
pub mod registry;
pub mod wire;

pub use self::client::{
    validate_mutation_success, validate_server_list, ClientError, OperationStatus,
    ReceivedOperation, ReceivedStatus, ServerStatus,
};
pub use self::exchange::{combine_control_results, AdmissionCancellation};
pub use self::frame::{encode_frame, BoundedJson};
pub use self::registry::PreparedRegistry;
pub use self::wire::{
    ClientMutationOperation, Request, RequestId, WireErrorCode, WireFailureCategory, WirePhase,
};
