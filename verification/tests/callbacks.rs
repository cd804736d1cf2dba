use libghostty_vt_zed::callbacks::{InstallOptions, RuntimeEffect, TerminalCallbacks};

/// Callbacks for a 20x4 terminal with the XTVERSION answer "Zed" installed.
fn install_callbacks() -> TerminalCallbacks {
    let mut callbacks = TerminalCallbacks::new(20, 4);
    callbacks.install(InstallOptions { xtversion: "Zed" });
    callbacks
}

#[test]
fn callbacks_queue_runtime_effects() {
    let mut callbacks = install_callbacks();

    // The terminal reads "\x07" and rings the bell.
    callbacks.on_bell();
    assert_eq!(callbacks.drain_effects(), vec![RuntimeEffect::Bell]);
    assert!(callbacks.drain_effects().is_empty());

    // The terminal reads "\x1b]2;zed title\x07" and its title becomes "zed title".
    callbacks.on_title_changed(Some("zed title"));
    assert_eq!(
        callbacks.drain_effects(),
        vec![RuntimeEffect::TitleChanged(Some("zed title".to_owned()))]
    );

    // The terminal reads "\x1b]2;\x07" and its title becomes empty.
    callbacks.on_title_changed(Some(""));
    assert_eq!(
        callbacks.drain_effects(),
        vec![RuntimeEffect::TitleChanged(None)]
    );
}

#[test]
fn callbacks_queue_pty_replies() {
    let mut callbacks = install_callbacks();

    // The terminal reads "\x1b[>q", asks for the XTVERSION string and writes
    // its DCS reply back to the PTY.
    let version = callbacks.on_xtversion().expect("xtversion answer");
    assert_eq!(version, "Zed");
    let reply_bytes = format!("\x1bP>|{version}\x1b\\").into_bytes();
    callbacks.on_pty_write(&reply_bytes);
    let replies = callbacks.drain_pty_writes();
    assert_eq!(replies.len(), 1, "expected one XTVERSION reply");
    let reply = String::from_utf8(replies.into_iter().next().expect("reply"))
        .expect("XTVERSION reply should be valid UTF-8");
    assert!(
        reply.contains("Zed"),
        "expected XTVERSION reply to contain Zed, got {reply:?}"
    );

    // The terminal reads "\x05" (ENQ) and writes back whatever the callback answers.
    if let Some(answer) = callbacks.on_enquiry() {
        callbacks.on_pty_write(&answer);
    }
    assert!(
        callbacks.drain_pty_writes().is_empty(),
        "expected ENQ callback to stay silent"
    );
}

#[test]
fn empty_pty_writes_are_not_queued() {
    let mut callbacks = install_callbacks();
    callbacks.on_pty_write(b"");
    assert!(callbacks.drain_pty_writes().is_empty());
    callbacks.on_pty_write(b"a");
    callbacks.on_pty_write(b"bc");
    assert_eq!(callbacks.drain_pty_writes(), vec![b"a".to_vec(), b"bc".to_vec()]);
    assert!(callbacks.drain_pty_writes().is_empty());
}

#[test]
fn effects_drain_in_order() {
    let mut callbacks = install_callbacks();
    callbacks.on_title_changed(None);
    callbacks.on_bell();
    callbacks.on_title_changed(Some("x"));
    assert_eq!(
        callbacks.drain_effects(),
        vec![
            RuntimeEffect::TitleChanged(None),
            RuntimeEffect::Bell,
            RuntimeEffect::TitleChanged(Some("x".to_owned())),
        ]
    );
}

#[test]
fn size_reports_clamp_cell_size() {
    let mut callbacks = install_callbacks();
    let size = callbacks.on_size().expect("size");
    assert_eq!((size.columns, size.rows, size.cell_width, size.cell_height), (20, 4, 1, 1));
    callbacks.update_size(80, 24, 0, 17);
    let size = callbacks.on_size().expect("size");
    assert_eq!((size.columns, size.rows, size.cell_width, size.cell_height), (80, 24, 1, 17));
    callbacks.update_size(100, 30, 9, 18);
    let size = callbacks.on_size().expect("size");
    assert_eq!((size.columns, size.rows, size.cell_width, size.cell_height), (100, 30, 9, 18));
}

#[test]
fn xtversion_needs_installation() {
    let mut callbacks = TerminalCallbacks::new(1, 1);
    assert_eq!(callbacks.on_xtversion(), None);
    callbacks.install(InstallOptions { xtversion: "Zed 1.0" });
    assert_eq!(callbacks.on_xtversion(), Some("Zed 1.0"));
}

#[test]
fn device_attributes_are_vt220_class() {
    let callbacks = install_callbacks();
    let attributes = callbacks.on_device_attributes().expect("attributes");
    assert_eq!(attributes.primary.conformance_level, 62);
    assert_eq!(attributes.primary.features, vec![1, 6, 22]);
    assert_eq!(attributes.secondary.device_type, 1);
    assert_eq!(attributes.secondary.firmware_version, 1);
    assert_eq!(attributes.secondary.rom_cartridge, 0);
    assert_eq!(attributes.tertiary.unit_id, 0);
}

#[test]
fn drain_returns_every_non_empty_write_in_order() {
    let mut callbacks = install_callbacks();
    let writes: Vec<Vec<u8>> = vec![b"1".to_vec(), Vec::new(), b"22".to_vec(), Vec::new(), b"333".to_vec()];
    for write in &writes {
        callbacks.on_pty_write(write);
    }
    callbacks.on_bell();
    let expected: Vec<Vec<u8>> = writes.into_iter().filter(|w| !w.is_empty()).collect();
    assert_eq!(callbacks.drain_pty_writes(), expected);
    assert!(callbacks.drain_pty_writes().is_empty());
    assert_eq!(callbacks.drain_effects(), vec![RuntimeEffect::Bell]);
}
