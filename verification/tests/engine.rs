//! Tests of the engines' decisions: the modern session's step machine, the
//! legacy precheck and result interpretation, the capability cache, the
//! identity object's base protocol, and the dispatcher.

use win32_remove_dir_all::advance;
use win32_remove_dir_all::check_attributes;
use win32_remove_dir_all::interpret_operation_result;
use win32_remove_dir_all::interpret_probe;
use win32_remove_dir_all::record_probe;
use win32_remove_dir_all::remove_dir_all;
use win32_remove_dir_all::CallOutcome;
use win32_remove_dir_all::Capability;
use win32_remove_dir_all::Error;
use win32_remove_dir_all::ErrorCode;
use win32_remove_dir_all::ErrorKind;
use win32_remove_dir_all::IdentityObject;
use win32_remove_dir_all::ModernState;
use win32_remove_dir_all::ModernStep;
use win32_remove_dir_all::RemovalPlan;

const MARKER: [u16; 4] = [92, 92, 63, 92]; // \\?\

fn units(s: &str) -> Vec<u16> {
    s.encode_utf16().collect()
}

/// The outcomes of a session in which every platform call succeeds.
fn clean_session() -> [(ModernStep, CallOutcome); 10] {
    [
        (ModernStep::Initialize, CallOutcome::Status { hr: 0 }),
        (ModernStep::CreateBindCtx, CallOutcome::Produced { hr: 0, object: true }),
        (ModernStep::RegisterParam, CallOutcome::Status { hr: 0 }),
        (ModernStep::CreateItem, CallOutcome::Produced { hr: 0, object: true }),
        (ModernStep::QueryAttributes, CallOutcome::Status { hr: 0 }),
        (ModernStep::CreateFileOperation, CallOutcome::Produced { hr: 0, object: true }),
        (ModernStep::SetFlags, CallOutcome::Status { hr: 0 }),
        (ModernStep::QueueDelete, CallOutcome::Status { hr: 0 }),
        (ModernStep::Perform, CallOutcome::Status { hr: 0 }),
        (ModernStep::QueryAborted, CallOutcome::Flag { hr: 0, aborted: false }),
    ]
}

#[test]
fn modern_session_walks_the_fixed_order_to_completion() {
    let mut state = ModernState::Pending(ModernStep::Initialize);
    for (step, outcome) in clean_session() {
        assert_eq!(state, ModernState::Pending(step));
        state = advance(step, outcome).expect("clean step must succeed");
    }
    assert_eq!(state, ModernState::Complete);
}

#[test]
fn modern_session_accepts_already_initialized_status() {
    // The concurrency-model initializer reports a positive status when the
    // context was already initialized; that is still success.
    assert_eq!(
        advance(ModernStep::Initialize, CallOutcome::Status { hr: 1 }),
        Ok(ModernState::Pending(ModernStep::CreateBindCtx))
    );
}

#[test]
fn modern_missing_target_surfaces_the_win32_code() {
    let not_found = 0x8007_0002u32 as i32;
    assert_eq!(
        advance(ModernStep::CreateItem, CallOutcome::Produced { hr: not_found, object: false }),
        Err(Error::Os { code: 2 })
    );
}

#[test]
fn modern_non_directory_is_invalid_target() {
    // The attribute query reports all-match with exactly zero; the
    // "partial match" status is positive and still rejects the target.
    let r = advance(ModernStep::QueryAttributes, CallOutcome::Status { hr: 1 });
    assert_eq!(r, Err(Error::NotDirectory));
    assert_eq!(Error::NotDirectory.kind(), Some(ErrorKind::InvalidData));
}

#[test]
fn modern_succeeded_call_without_object_fails() {
    assert_eq!(
        advance(ModernStep::CreateBindCtx, CallOutcome::Produced { hr: 0, object: false }),
        Err(Error::NullObject { step: ModernStep::CreateBindCtx })
    );
    assert_eq!(
        advance(ModernStep::CreateItem, CallOutcome::Produced { hr: 0, object: false }),
        Err(Error::NullObject { step: ModernStep::CreateItem })
    );
}

#[test]
fn modern_aborted_flag_is_interrupted() {
    let r = advance(ModernStep::QueryAborted, CallOutcome::Flag { hr: 0, aborted: true });
    assert_eq!(r, Err(Error::Aborted));
    assert_eq!(Error::Aborted.kind(), Some(ErrorKind::Interrupted));
}

#[test]
fn modern_raw_failure_names_its_step() {
    let e_fail = 0x8000_4005u32 as i32;
    assert_eq!(
        advance(ModernStep::Perform, CallOutcome::Status { hr: e_fail }),
        Err(Error::Unstructured { step: ModernStep::Perform, hr: e_fail })
    );
}

#[test]
fn legacy_unreadable_attributes_surface_the_query_error() {
    // All-ones attributes mean the query failed; code 2 is the platform's
    // file-not-found.
    assert_eq!(check_attributes(u32::MAX, 2), Err(Error::Os { code: 2 }));
}

#[test]
fn legacy_plain_file_is_invalid_target() {
    // A plain file carries the archive bit but no directory bit.
    assert_eq!(check_attributes(0x20, 0), Err(Error::NotDirectory));
}

#[test]
fn legacy_directory_and_directory_symlink_pass() {
    assert_eq!(check_attributes(0x10, 0), Ok(()));
    // A directory symlink carries the reparse-point bit next to the
    // directory bit and passes the same check.
    assert_eq!(check_attributes(0x410, 0), Ok(()));
}

#[test]
fn legacy_table_code_takes_precedence() {
    assert_eq!(
        interpret_operation_result(0x71, false),
        Err(Error::Shell { code: ErrorCode::DE_SAMEFILE })
    );
    // The precedence holds even when the aborted flag is set as well.
    assert_eq!(
        interpret_operation_result(0x75, true),
        Err(Error::Shell { code: ErrorCode::DE_OPCANCELLED })
    );
}

#[test]
fn legacy_unlisted_code_is_a_raw_platform_code() {
    assert_eq!(interpret_operation_result(0x7F, false), Err(Error::Os { code: 0x7F }));
    assert_eq!(interpret_operation_result(5, false), Err(Error::Os { code: 5 }));
}

#[test]
fn legacy_clean_return_with_aborted_flag_is_interrupted() {
    assert_eq!(interpret_operation_result(0, true), Err(Error::Aborted));
}

#[test]
fn legacy_clean_return_succeeds() {
    assert_eq!(interpret_operation_result(0, false), Ok(()));
}

#[test]
fn probe_needs_module_and_symbol() {
    assert!(interpret_probe(true, true));
    assert!(!interpret_probe(true, false));
    assert!(!interpret_probe(false, false));
    assert!(!interpret_probe(false, true));
}

#[test]
fn capability_record_is_write_once() {
    // The first probe settles the record.
    assert_eq!(record_probe(Capability::Unknown, true), Capability::Supported);
    assert_eq!(record_probe(Capability::Unknown, false), Capability::Unsupported);
    // Later probes, whatever they report, change nothing: every caller
    // observes the outcome of the first one.
    assert_eq!(record_probe(Capability::Supported, false), Capability::Supported);
    assert_eq!(record_probe(Capability::Supported, true), Capability::Supported);
    assert_eq!(record_probe(Capability::Unsupported, true), Capability::Unsupported);
    assert_eq!(record_probe(Capability::Unsupported, false), Capability::Unsupported);
}

#[test]
fn identity_object_counts_references_manually() {
    let mut obj = IdentityObject::allocate();
    assert_eq!(obj.ref_count, 1);
    assert_eq!(obj.add_ref(), 2);
    assert_eq!(obj.release(), (1, false));
    assert_eq!(obj.release(), (0, true));
}

#[test]
fn identity_object_offers_only_its_base_identity() {
    let obj = IdentityObject::allocate();
    assert_eq!(obj.query_interface(true), 0);
    // The no-interface status, 0x80004002 as a signed value.
    assert_eq!(obj.query_interface(false), -2147467262);
}

#[test]
fn supported_capability_plans_the_modern_session_only() {
    let mut resolved: Vec<u16> = MARKER.to_vec();
    resolved.extend(units("C:\\foo"));
    resolved.push(0);
    let plan = remove_dir_all(&resolved, Capability::Supported);
    let mut target = units("C:\\foo");
    target.push(0);
    // One engine, no fallback: a modern failure would be the call's result.
    assert_eq!(plan, RemovalPlan::Modern { target });
}

#[test]
fn unsupported_capability_plans_the_legacy_call() {
    let mut resolved: Vec<u16> = MARKER.to_vec();
    resolved.extend(units("C:\\foo"));
    resolved.push(0);
    let plan = remove_dir_all(&resolved, Capability::Unsupported);
    let mut path = resolved.clone();
    path.push(0);
    let mut source = units("C:\\foo");
    source.push(0);
    source.push(0);
    assert_eq!(plan, RemovalPlan::Legacy { path, source });
}
