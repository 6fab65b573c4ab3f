use chunk_loader::chunk::{classify, format_reject_message, mode_allows, ChunkClass};
use chunk_loader::loader::{LoadStatus, Loader, Step};

/// Drive a complete load run the way an embedding would, with an
/// allocation-tracking double for the compiler's buffer: returns the final
/// status, the sizes passed to allocate and to release, and the diagnostic,
/// if one was pushed.
fn drive(
    data: &[u8],
    mode: Option<&str>,
    compiled_size: usize,
    load_failed: bool,
) -> (Option<LoadStatus>, Vec<usize>, Vec<usize>, Option<String>) {
    let mut allocated: Vec<usize> = Vec::new();
    let mut released: Vec<usize> = Vec::new();
    let mut diagnostic: Option<String> = None;

    let (mut loader, first_step) = Loader::begin(data, mode);
    match first_step {
        Step::PushDiagnostic { message } => {
            diagnostic = Some(message);
        }
        Step::Compile => {
            allocated.push(compiled_size);
            let next = loader.on_compiled(compiled_size);
            match next {
                Step::LoadCompiled { size } => {
                    assert_eq!(size, compiled_size);
                }
                other => panic!("expected a load of the compiled buffer, got {:?}", other),
            }
            if let Some(Step::Release { size }) = loader.on_load_result(load_failed) {
                released.push(size);
            }
        }
        Step::LoadDirect => {
            if let Some(step) = loader.on_load_result(load_failed) {
                panic!("no buffer to release on the binary path, got {:?}", step);
            }
        }
        other => panic!("unexpected first step {:?}", other),
    }
    (loader.status(), allocated, released, diagnostic)
}

#[test]
fn classification_boundary() {
    assert_eq!(classify(&[0x0A]), ChunkClass::Text);
    assert_eq!(classify(&[0x09]), ChunkClass::Binary);
    assert_eq!(classify(&[0x00]), ChunkClass::Binary);
    assert_eq!(classify(&[0xFF]), ChunkClass::Text);
    assert_eq!(classify(b"return 1"), ChunkClass::Text);
}

#[test]
fn mode_membership() {
    assert!(mode_allows(None, ChunkClass::Text));
    assert!(mode_allows(None, ChunkClass::Binary));
    assert!(mode_allows(Some("t"), ChunkClass::Text));
    assert!(!mode_allows(Some("t"), ChunkClass::Binary));
    assert!(mode_allows(Some("b"), ChunkClass::Binary));
    assert!(!mode_allows(Some("b"), ChunkClass::Text));
    assert!(mode_allows(Some("bt"), ChunkClass::Text));
    assert!(mode_allows(Some("bt"), ChunkClass::Binary));
    assert!(!mode_allows(Some(""), ChunkClass::Text));
    assert!(!mode_allows(Some(""), ChunkClass::Binary));
    // Characters outside the marker alphabet are ignored, not rejected.
    assert!(mode_allows(Some("xtz"), ChunkClass::Text));
    assert!(!mode_allows(Some("xyz"), ChunkClass::Binary));
}

#[test]
fn reject_message_text() {
    let m = format_reject_message(ChunkClass::Binary, "t");
    assert_eq!(m, "attempt to load a binary chunk (mode is 't')");
    let m = format_reject_message(ChunkClass::Text, "b");
    assert_eq!(m, "attempt to load a text chunk (mode is 'b')");
}

#[test]
fn text_chunk_loads_without_mode() {
    let (status, allocated, released, diagnostic) = drive(b"return 1", None, 42, false);
    assert_eq!(status, Some(LoadStatus::Success));
    assert_eq!(allocated, vec![42]);
    assert_eq!(released, vec![42]);
    assert!(diagnostic.is_none());
}

#[test]
fn text_chunk_under_binary_mode_is_rejected() {
    let (status, allocated, released, diagnostic) = drive(b"return 1", Some("b"), 42, false);
    assert_eq!(status, Some(LoadStatus::SyntaxError));
    assert!(allocated.is_empty());
    assert!(released.is_empty());
    let message = diagnostic.expect("a diagnostic must be pushed");
    assert!(message.contains("text chunk"));
    assert_eq!(message, "attempt to load a text chunk (mode is 'b')");
}

#[test]
fn binary_chunk_under_text_mode_is_rejected() {
    let (status, allocated, released, diagnostic) = drive(&[0x00, 0x01], Some("t"), 42, false);
    assert_eq!(status, Some(LoadStatus::SyntaxError));
    assert!(allocated.is_empty());
    assert!(released.is_empty());
    let message = diagnostic.expect("a diagnostic must be pushed");
    assert!(message.contains("binary chunk"));
    assert_eq!(message, "attempt to load a binary chunk (mode is 't')");
}

#[test]
fn binary_chunk_loads_without_mode() {
    let (status, allocated, released, diagnostic) = drive(&[0x00, 0x01], None, 42, false);
    assert_eq!(status, Some(LoadStatus::Success));
    assert!(allocated.is_empty());
    assert!(released.is_empty());
    assert!(diagnostic.is_none());
}

#[test]
fn binary_chunk_failure_reports_syntax_error() {
    let (status, _, _, diagnostic) = drive(&[0x00, 0x01], None, 42, true);
    assert_eq!(status, Some(LoadStatus::SyntaxError));
    assert!(diagnostic.is_none());
}

#[test]
fn compiled_buffer_released_once_on_success_and_failure() {
    for &load_failed in &[false, true] {
        let (status, allocated, released, diagnostic) =
            drive(b"print('x')", Some("t"), 131, load_failed);
        let expected = if load_failed {
            LoadStatus::SyntaxError
        } else {
            LoadStatus::Success
        };
        assert_eq!(status, Some(expected));
        // One allocation, one release, with the exact reported size.
        assert_eq!(allocated, vec![131]);
        assert_eq!(released, vec![131]);
        assert!(diagnostic.is_none());
    }
}

#[test]
fn unrestricted_entry_matches_absent_mode() {
    let inputs: Vec<Vec<u8>> = vec![
        vec![0x00],
        vec![0x09],
        vec![0x0A],
        vec![0x1B, 0x4C, 0x75, 0x61],
        b"return 1".to_vec(),
        vec![0xFF, 0x00],
    ];
    for data in &inputs {
        let (state_a, step_a) = Loader::begin_unrestricted(data);
        let (state_b, step_b) = Loader::begin(data, None);
        assert_eq!(state_a, state_b);
        assert_eq!(step_a, step_b);
    }
}

#[test]
fn status_is_absent_until_the_run_ends() {
    let (mut loader, step) = Loader::begin(b"return 1", None);
    assert_eq!(step, Step::Compile);
    assert_eq!(loader.status(), None);
    let step = loader.on_compiled(7);
    assert_eq!(step, Step::LoadCompiled { size: 7 });
    assert_eq!(loader.status(), None);
    let step = loader.on_load_result(false);
    assert_eq!(step, Some(Step::Release { size: 7 }));
    assert_eq!(loader.status(), Some(LoadStatus::Success));
}
