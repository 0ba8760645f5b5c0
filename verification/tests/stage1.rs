use chaudloader::detour::InstallError;
use chaudloader::stage1::GameEnv;
use chaudloader::stage1::Stage1;
use chaudloader::stage1::TextSection;
use chaudloader::stage1::game_load_pattern;
use chaudloader::stage1::install;
use chaudloader::stage1::install_on_game_load;

const PATTERN: [u8; 12] = [0x48, 0x89, 0x5c, 0x24, 0x10, 0x56, 0x48, 0x83, 0xec, 0x20, 0x8b, 0xd9];

fn text_with_pattern_at(offset: usize, size: usize) -> Vec<u8> {
    let mut text = vec![0u8; size];
    text[offset..offset + 12].copy_from_slice(&PATTERN);
    // 0x18 bytes into the match: the RIP-relative mov, displacement field
    // three bytes into the instruction.
    let mov = offset + 0x18;
    text[mov..mov + 7].copy_from_slice(&[0x48, 0x8b, 0x05, 0x11, 0x22, 0x33, 0x44]);
    text
}

#[test]
fn exported_pattern_matches_prologue() {
    assert_eq!(game_load_pattern(), PATTERN.to_vec());
}

#[test]
fn p5_second_install_fails_cleanly() {
    let mut st = Stage1::new();
    assert_eq!(install(&mut st, Some(0x1000), Some(0x2000)), Ok(()));
    assert!(st.file_hooks.wide.installed && st.file_hooks.wide.enabled);
    assert!(st.file_hooks.narrow.installed && st.file_hooks.narrow.enabled);
    assert_eq!(st.file_hooks.wide.target, 0x1000);
    assert_eq!(st.file_hooks.narrow.target, 0x2000);

    let before_wide = st.file_hooks.wide;
    let before_narrow = st.file_hooks.narrow;
    assert_eq!(
        install(&mut st, Some(0x3000), Some(0x4000)),
        Err(InstallError::AlreadyInstalled)
    );
    // No second detour was chained on either symbol.
    assert_eq!(st.file_hooks.wide, before_wide);
    assert_eq!(st.file_hooks.narrow, before_narrow);
}

#[test]
fn missing_symbol_is_fatal_and_installs_nothing() {
    let mut st = Stage1::new();
    assert_eq!(install(&mut st, None, Some(0x2000)), Err(InstallError::SymbolUnresolved));
    assert_eq!(install(&mut st, Some(0x1000), None), Err(InstallError::SymbolUnresolved));
    assert!(!st.file_hooks.wide.installed);
    assert!(!st.file_hooks.narrow.installed);
}

#[test]
fn s4_hit_resolves_rip_relative_symbol() {
    let base: u64 = 0x1_4000_0000;
    let env = GameEnv {
        text: Some(TextSection { base, bytes: text_with_pattern_at(0x800, 4096) }),
    };
    let mut st = Stage1::new();
    assert_eq!(install_on_game_load(&mut st, &env), Ok(()));
    assert!(st.game_load.installed && st.game_load.enabled);
    assert_eq!(st.game_load.target, base + 0x800);
    assert_eq!(st.state_slot, Some(base + 0x800 + 0x18 + 7 + 0x4433_2211));
}

#[test]
fn s5_pattern_miss_is_soft() {
    let env = GameEnv {
        text: Some(TextSection { base: 0x1_4000_0000, bytes: vec![0u8; 4096] }),
    };
    let mut st = Stage1::new();
    assert_eq!(install_on_game_load(&mut st, &env), Ok(()));
    // No hook was installed: game loads proceed uninstrumented, so
    // observers registered later are never called.
    assert!(!st.game_load.installed);
    assert_eq!(st.state_slot, None);
}

#[test]
fn missing_text_section_is_soft() {
    let mut st = Stage1::new();
    assert_eq!(install_on_game_load(&mut st, &GameEnv { text: None }), Ok(()));
    assert!(!st.game_load.installed);
}

#[test]
fn hit_too_close_to_section_end_is_soft() {
    // The pattern fits but the displacement field would lie past the end.
    let mut bytes = vec![0u8; 64];
    bytes[52..64].copy_from_slice(&PATTERN);
    let env = GameEnv { text: Some(TextSection { base: 0x1000, bytes }) };
    let mut st = Stage1::new();
    assert_eq!(install_on_game_load(&mut st, &env), Ok(()));
    assert!(!st.game_load.installed);
}

#[test]
fn second_game_load_install_fails_cleanly() {
    let base: u64 = 0x1_4000_0000;
    let env = GameEnv {
        text: Some(TextSection { base, bytes: text_with_pattern_at(0x800, 4096) }),
    };
    let mut st = Stage1::new();
    assert_eq!(install_on_game_load(&mut st, &env), Ok(()));
    let before = st.game_load;
    assert_eq!(install_on_game_load(&mut st, &env), Err(InstallError::AlreadyInstalled));
    assert_eq!(st.game_load, before);
}

#[test]
fn first_of_two_pattern_hits_wins() {
    let base: u64 = 0x2000;
    let mut bytes = text_with_pattern_at(0x400, 4096);
    let second = text_with_pattern_at(0x800, 4096);
    bytes[0x800..0x800 + 0x20].copy_from_slice(&second[0x800..0x800 + 0x20]);
    let env = GameEnv { text: Some(TextSection { base, bytes }) };
    let mut st = Stage1::new();
    assert_eq!(install_on_game_load(&mut st, &env), Ok(()));
    assert_eq!(st.game_load.target, base + 0x400);
}
