//! Verified core of a post-processing pipeline that turns freshly built
//! executables into installable packages for the PS Vita, plus verified
//! models of the runtime support library that ships with it.
//!
//! The executable work (spawning the build tool and the packaging tools,
//! querying file modification times, reading the build tool's output stream)
//! lives outside this crate; everything here is the decision logic, stated
//! in contracts and proved.

mod display;
mod driver;
mod headers_db;
pub mod http;
mod link;
mod net;
mod paths;
mod pipeline;
mod sce;
mod staleness;
mod strutil;
mod sysmem;
mod sysmodule;
mod toolchain;

pub use display::{min_pitch, Display, Framebuf, FramebufDesc, PixelFormat};
pub use driver::{
    aggregate, build_command_args, drive_stream, get_arg, on_message, scan_line,
    AggregatedResult, BuildMessage, LineAction, TARGET_SPEC_NAME,
};
pub use headers_db::{
    contains_str, is_conflicting_stub, postfix, stub_lib_name, VitaDb, VitaImports,
    VitaImportsLib, VitaImportsModule, VitaImportsPostfix,
};
pub use http::{Connection, KeepAlive, Request, Template};
pub use link::{
    assoc_get, build_link_map, collect_entries, resolve_stub_lib, ExternItem, Link, LinkError,
    StubResolution,
};
pub use net::{GlobalState, NET_MEMORY_SIZE};
pub use paths::{ArtifactPaths, file_stem, find_last, sibling_path, with_extension};
pub use pipeline::{
    run_schedule, ArtifactPlan, CacheAnswers, PipelineOutcome, PipelineState, PlanError,
    ScheduleReport, Stage, StageFailureKind, StageStatus, StageVerdicts,
};
pub use sce::{sce_result_uid_from_code, sce_result_unit_from_code, SceError, SceResult, Uid};
pub use staleness::is_cached;
pub use strutil::{str_eq, str_starts_with, u32_to_dec, u32_to_hex, u64_to_dec};
pub use sysmem::{MemBlockMut, MemBlockOptions, MemBlockRaw, MemBlockUninitMut, MemPartition};
pub use sysmodule::{Module, ModuleId};
pub use toolchain::{
    get_vitasdk_subpath, handle_exit_status, LoggingVerbosity, Toolchain, VitaElfCreate,
    VitaMakeFself, VitaMksfoex, VitaPackVpk, AUTHID_DEFAULT, AUTHID_SAFE, AUTHID_SECRET_SAFE,
};
