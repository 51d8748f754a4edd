//! Tests of path preparation: extended-length prefixing, nul termination,
//! prefix stripping, the resolution loop's decisions, and the legacy
//! engine's double-nul source list.

use win32_remove_dir_all::legacy_source;
use win32_remove_dir_all::prepare_path_utf16;
use win32_remove_dir_all::resolve_buffer_step;
use win32_remove_dir_all::strip_extended_length_path_prefix;
use win32_remove_dir_all::ResolveStep;

const MARKER: [u16; 4] = [92, 92, 63, 92]; // \\?\

fn units(s: &str) -> Vec<u16> {
    s.encode_utf16().collect()
}

#[test]
fn prepare_adds_marker_and_nul() {
    let input = units("C:\\foo");
    let prepared = prepare_path_utf16(&input);
    let mut expected: Vec<u16> = MARKER.to_vec();
    expected.extend(units("C:\\foo"));
    expected.push(0);
    assert_eq!(prepared, expected);
}

#[test]
fn prepare_keeps_existing_marker() {
    let input = units("\\\\?\\C:\\foo");
    let prepared = prepare_path_utf16(&input);
    let mut expected = input.clone();
    expected.push(0);
    assert_eq!(prepared, expected);
}

#[test]
fn prepare_empty_input_is_marker_and_nul() {
    let prepared = prepare_path_utf16(&[]);
    assert_eq!(prepared, vec![92, 92, 63, 92, 0]);
}

#[test]
fn prepare_forward_slash_path_gets_marker_too() {
    // Separator style plays no part in preparation: a path written with
    // forward slashes is prefixed and terminated exactly like one written
    // with backslashes, and the platform's resolution treats them alike.
    let input = units("C:/foo");
    let prepared = prepare_path_utf16(&input);
    let mut expected: Vec<u16> = MARKER.to_vec();
    expected.extend(units("C:/foo"));
    expected.push(0);
    assert_eq!(prepared, expected);
}

#[test]
fn strip_removes_marker() {
    let input = units("\\\\?\\C:\\foo");
    let stripped = strip_extended_length_path_prefix(&input);
    assert_eq!(stripped, &units("C:\\foo")[..]);
}

#[test]
fn strip_without_marker_is_identity() {
    let input = units("C:\\foo");
    let stripped = strip_extended_length_path_prefix(&input);
    assert_eq!(stripped, &input[..]);
}

#[test]
fn strip_short_input_is_identity() {
    let input = units("\\\\?");
    let stripped = strip_extended_length_path_prefix(&input);
    assert_eq!(stripped, &input[..]);
}

#[test]
fn strip_marker_alone_leaves_nothing() {
    let input: Vec<u16> = MARKER.to_vec();
    let stripped = strip_extended_length_path_prefix(&input);
    assert!(stripped.is_empty());
}

#[test]
fn resolve_step_zero_return_fails() {
    assert_eq!(resolve_buffer_step(0, 0), ResolveStep::Fail);
    assert_eq!(resolve_buffer_step(0, 128), ResolveStep::Fail);
}

#[test]
fn resolve_step_fitting_return_is_done() {
    assert_eq!(resolve_buffer_step(5, 10), ResolveStep::Done { len: 5 });
    assert_eq!(resolve_buffer_step(9, 10), ResolveStep::Done { len: 9 });
}

#[test]
fn resolve_step_oversized_return_grows() {
    // The first call always probes with no capacity at all.
    assert_eq!(resolve_buffer_step(17, 0), ResolveStep::Grow { capacity: 17 });
    // A later call can still come up short when the needed size grew.
    assert_eq!(resolve_buffer_step(10, 10), ResolveStep::Grow { capacity: 10 });
    assert_eq!(resolve_buffer_step(24, 17), ResolveStep::Grow { capacity: 24 });
}

#[test]
fn legacy_source_strips_marker_and_double_terminates() {
    let mut resolved: Vec<u16> = MARKER.to_vec();
    resolved.extend(units("C:\\foo"));
    resolved.push(0);
    let source = legacy_source(&resolved);
    let mut expected = units("C:\\foo");
    expected.push(0);
    expected.push(0);
    assert_eq!(source, expected);
}

#[test]
fn legacy_source_without_marker_only_terminates() {
    let mut resolved = units("C:\\foo");
    resolved.push(0);
    let source = legacy_source(&resolved);
    let mut expected = units("C:\\foo");
    expected.push(0);
    expected.push(0);
    assert_eq!(source, expected);
}
