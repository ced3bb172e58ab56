use gba_emu::gba_app::GBAApp;

fn branch_to_self() -> Vec<u8> {
    0xEAFF_FFFEu32.to_le_bytes().to_vec()
}

#[test]
fn new_with_a_readable_rom_runs() {
    let app = GBAApp::new(Ok(branch_to_self()));
    assert!(app.is_running());
    assert!(app.error_message().is_none());
    assert_eq!(app.framebuffer().map(|fb| fb.len()), Some(240 * 160 * 4));
    assert_eq!(app.rom_path().as_str(), "");
    assert!(!app.has_rom_path());
}

#[test]
fn new_with_an_unreadable_rom_shows_the_error() {
    let app = GBAApp::new(Err("No such file or directory (os error 2)".to_string()));
    assert!(!app.is_running());
    assert_eq!(
        app.error_message().as_deref(),
        Some("No such file or directory (os error 2)")
    );
    assert!(app.framebuffer().is_none());
}

#[test]
fn load_of_an_oversized_rom_keeps_the_console() {
    let mut app = GBAApp::new(Ok(branch_to_self()));
    app.load_rom(Ok(vec![0u8; 32 * 1024 * 1024 + 1]));
    assert!(!app.is_running());
    assert_eq!(app.error_message().as_deref(), Some("ROM too large"));
    assert!(app.framebuffer().is_some());
}

#[test]
fn start_needs_a_console() {
    let mut app = GBAApp::new(Err("missing".to_string()));
    app.start();
    assert!(!app.is_running());
    app.load_rom(Ok(branch_to_self()));
    assert!(app.is_running());
    assert!(app.error_message().is_none());
    app.pause();
    assert!(!app.is_running());
    app.start();
    assert!(app.is_running());
}

#[test]
fn rom_path_editing() {
    let mut app = GBAApp::new(Err("missing".to_string()));
    app.set_rom_path("game.gba".to_string());
    assert!(app.has_rom_path());
    assert_eq!(app.rom_path().as_str(), "game.gba");
}

#[test]
fn step_and_run() {
    let mut app = GBAApp::new(Ok(branch_to_self()));
    assert!(app.step());
    assert!(app.run());
    app.pause();
    assert!(app.run());
}

#[test]
fn step_and_run_refuse_an_undecodable_condition() {
    let mut app = GBAApp::new(Ok(0xF000_0000u32.to_le_bytes().to_vec()));
    assert!(!app.step());
    assert!(!app.run());
}

#[test]
fn step_and_run_without_a_console_do_nothing() {
    let mut app = GBAApp::new(Err("missing".to_string()));
    assert!(app.step());
    assert!(app.run());
}
