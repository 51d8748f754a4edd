//! A recursive directory-deletion primitive for the Windows shell, built
//! around two platform mechanisms: the interface-based `IFileOperation`
//! object (the modern engine) and the batch-style `SHFileOperationW` call
//! (the legacy engine).
//!
//! The platform calls themselves stay outside the library, in a thin
//! shim; everything that decides, encodes or translates is verified here
//! and drives that shim:
//!
//! - path preparation: extended-length prefixing, UTF-16 nul termination,
//!   prefix stripping, and the grow-and-retry protocol around the
//!   platform's path-absolutization call;
//! - the error model: the legacy engine's fixed code table and the numeric
//!   rule that splits an `HRESULT` into a Win32 code or an unstructured
//!   failure;
//! - the modern engine's step machine: which call comes next, how each
//!   status is interpreted, and which failures end the session;
//! - the capability cache and the dispatcher that picks an engine and
//!   never falls back from a modern failure.

use vstd::prelude::*;

mod error;
mod path;
mod property;
mod shell;

pub use error::Error;
pub use error::ErrorKind;
pub use error::ModernStep;
pub use error::hresult_to_result;
pub use error::is_win32_hresult;
pub use error::win32_code_of;
pub use error::spec_hresult_error;
pub use error::spec_kind;
pub use path::prepare_path_utf16;
pub use path::strip_extended_length_path_prefix;
pub use path::resolve_buffer_step;
pub use path::extended_prefix;
pub use path::has_extended_prefix;
pub use path::strip_extended;
pub use path::ResolveStep;
pub use property::advance;
pub use property::interpret_probe;
pub use property::record_probe;
pub use property::lemma_probe_cached_once;
pub use property::lemma_clean_session_completes;
pub use property::lemma_success_requires_directory;
pub use property::lemma_non_directory_rejected;
pub use property::lemma_first_error_is_final;
pub use property::hr_of;
pub use property::object_of;
pub use property::aborted_of;
pub use property::spec_advance;
pub use property::run_from;
pub use property::modern_run;
pub use property::state_at;
pub use property::state_index;
pub use property::spec_record_probe;
pub use property::CallOutcome;
pub use property::Capability;
pub use property::IdentityObject;
pub use property::IFileOperationProgressSink;
pub use property::IOperationsProgressDialog;
pub use property::IPropertyChangeArray;
pub use property::ModernState;
pub use shell::ErrorCode;
pub use shell::check_attributes;
pub use shell::interpret_operation_result;
pub use shell::legacy_source;
pub use shell::spec_code;
pub use shell::spec_from_code;
pub use shell::spec_error_kind;
pub use shell::spec_description;

verus! {

/// Everything the chosen engine needs for one deletion, computed from the
/// resolved path and the settled capability record.
#[derive(Clone, Debug, PartialEq, Eq)]
pub enum RemovalPlan {
    /// Run the modern engine's session on `target`: the resolved path with
    /// its extended-length marker stripped, still nul-terminated, ready for
    /// the path-to-item conversion.
    Modern { target: Vec<u16> },
    /// Run the legacy engine: query the attributes of `path` (the resolved
    /// path as handed to the attribute call), then give the batch call
    /// `source` — the stripped path closed by a second nul, the batch
    /// mechanism's list terminator.
    Legacy { path: Vec<u16>, source: Vec<u16> },
}

/// What a correct plan holds for a resolved path and a settled capability:
/// a modern plan exactly when the modern mechanism is supported, with the
/// path forms each engine demands.
pub open spec fn plan_matches(plan: RemovalPlan, resolved: Seq<u16>, capability: Capability) -> bool {
    match plan {
        RemovalPlan::Modern { target } => capability is Supported && target@
            == path::strip_extended(resolved),
        RemovalPlan::Legacy { path: p, source } => capability is Unsupported && p@
            == resolved.push(0u16) && source@ == path::strip_extended(resolved).push(0u16),
    }
}

/// The dispatcher of the public deletion operation.
///
/// The caller resolves the path once and probes the capability record;
/// this function then commits the call to exactly one engine. When the
/// modern mechanism is supported the plan is the modern session and
/// nothing else: its outcome, success or failure, is the operation's
/// outcome, and the legacy engine is never consulted as a fallback. Only
/// an unsupported record selects the legacy engine.
pub fn remove_dir_all(resolved: &[u16], capability: Capability) -> (plan: RemovalPlan)
    requires
        !(capability is Unknown),
    ensures
        plan_matches(plan, resolved@, capability),
{
    match capability {
        Capability::Supported => {
            let stripped = path::strip_extended_length_path_prefix(resolved);
            RemovalPlan::Modern { target: vstd::slice::slice_to_vec(stripped) }
        },
        Capability::Unsupported => {
            let mut with_terminator: Vec<u16> = vstd::slice::slice_to_vec(resolved);
            with_terminator.push(0);
            let source = shell::legacy_source(resolved);
            RemovalPlan::Legacy { path: with_terminator, source }
        },
        Capability::Unknown => vstd::pervasive::unreached(),
    }
}

/// A modern failure is the operation's outcome: when the modern mechanism
/// is supported, the plan holds the modern session alone, so no legacy
/// deletion can run in the same call — there is no silent second attempt.
pub proof fn lemma_no_legacy_fallback(plan: RemovalPlan, resolved: Seq<u16>)
    requires
        plan_matches(plan, resolved, Capability::Supported),
    ensures
        plan matches RemovalPlan::Modern { target } && target@ == path::strip_extended(resolved),
{
}

} // verus!
