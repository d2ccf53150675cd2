//! A storage-operation façade: one API (stat, read, write, delete, batch
//! removal, recursive removal, listing, copy, rename, presign) over any
//! backend that implements [`Accessor`], with consistent path semantics,
//! capability-aware batching and single-shot configurable operations.

pub mod accessor;
pub mod capability;
pub mod error;
pub mod functions;
pub mod metadata;
pub mod operator;
pub mod ops;
pub mod path;
pub mod plan;
pub mod range;
pub mod session;

pub use accessor::{Accessor, BlockingList, BlockingRead, BlockingWrite};
pub use capability::{AccessorInfo, Capability, OperatorInfo, DEFAULT_BATCH_LIMIT};
pub use error::{Error, ErrorKind};
pub use functions::{
    FunctionDelete, FunctionList, FunctionLister, FunctionRead, FunctionReader, FunctionStat,
    FunctionWrite, FunctionWriter, OperatorFunction,
};
pub use metadata::{Entry, EntryMode, Metadata, Metakey, MetakeySet};
pub use operator::{collect_entries, read_to_size, write_all, write_and_close, Operator};
pub use ops::{OpDelete, OpList, OpRead, OpStat, OpWrite, PresignOperation, PresignedRequest};
pub use path::{normalize_path, validate_path};
pub use plan::{
    add_to_chunk, batch_outcome, check_outcome, check_stat_conditions, check_transfer_paths,
    collect_step, delete_outcome, exists_from_stat, first_failure, normalize_all, plan_batches,
    read_step, remove_all_step, removal_requests, resolve_range, stat_outcome, CollectStep, DeleteRequest, ReadStep, TreeAction, TreeRemoval,
    RemoveAllStep,
};
pub use range::BytesRange;
pub use session::{
    remove_tree, run_requests, Deleter, SentKind, WriteSession,
};
