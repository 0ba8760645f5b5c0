//! Installation protocol for the interception layer.
//!
//! `install` arms the two file-open detours from resolved symbol addresses.
//! `install_on_game_load` scans the host's code section for the game-load
//! routine's prologue pattern; a hit arms a detour on the routine and
//! records the address of the data symbol its RIP-relative `mov` reads, a
//! miss is soft and leaves the layer as it was.

use vstd::prelude::*;
use crate::detour::Detour;
use crate::detour::FileHooks;
use crate::detour::InstallError;
use crate::scanner::find_pattern;
use crate::scanner::is_first_match;
use crate::scanner::le32_at;
use crate::scanner::matches_at;
use crate::scanner::read_u32_le;
use crate::scanner::resolve_rip;
use crate::scanner::sext32;
use crate::scanner::wrap64;
use crate::scanner::wrapping_offset;

verus! {

/// An immutable view of the host executable's code section.
pub struct TextSection {
    /// Address the section is mapped at.
    pub base: u64,
    /// The section's bytes.
    pub bytes: Vec<u8>,
}

/// The parts of the game environment the installer reads.
pub struct GameEnv {
    /// The code section, when the host exposes one.
    pub text: Option<TextSection>,
}

/// The whole interception layer's state, as seen by the current thread.
pub struct Stage1 {
    /// The two file-open detours.
    pub file_hooks: FileHooks,
    /// Detour on the located game-load routine.
    pub game_load: Detour,
    /// Address of the static pointer variable the game-load routine reads,
    /// once resolved.
    pub state_slot: Option<u64>,
}

/// The 12-byte prologue that identifies the game-load routine.
pub open spec fn game_load_pattern_spec() -> Seq<u8> {
    seq![0x48u8, 0x89, 0x5c, 0x24, 0x10, 0x56, 0x48, 0x83, 0xec, 0x20, 0x8b, 0xd9]
}

/// The prologue pattern as bytes.
pub fn game_load_pattern() -> (v: Vec<u8>)
    ensures
        v@ == game_load_pattern_spec(),
{
    let mut v: Vec<u8> = Vec::new();
    v.push(0x48);
    v.push(0x89);
    v.push(0x5c);
    v.push(0x24);
    v.push(0x10);
    v.push(0x56);
    v.push(0x48);
    v.push(0x83);
    v.push(0xec);
    v.push(0x20);
    v.push(0x8b);
    v.push(0xd9);
    proof {
        assert(v@ =~= game_load_pattern_spec());
    }
    v
}

impl Stage1 {
    /// The layer before anything is installed.
    pub fn new() -> (r: Stage1)
        ensures
            r.file_hooks.wide == Detour::spec_uninstalled(),
            r.file_hooks.narrow == Detour::spec_uninstalled(),
            r.game_load == Detour::spec_uninstalled(),
            r.state_slot is None,
    {
        Stage1 {
            file_hooks: FileHooks::new(),
            game_load: Detour::uninstalled(),
            state_slot: None,
        }
    }
}

/// Install and enable the file-open detours at the resolved addresses of
/// the wide and narrow entry points.
///
/// A second call finds the detours present and fails cleanly, leaving them
/// as they are: detours are never chained on a symbol. A missing symbol is
/// fatal and installs nothing.
pub fn install(
    st: &mut Stage1,
    create_file_w: Option<u64>,
    create_file_a: Option<u64>,
) -> (r: Result<(), InstallError>)
    ensures
        (old(st).file_hooks.wide.installed || old(st).file_hooks.narrow.installed) ==> r == Err::<
            (),
            InstallError,
        >(InstallError::AlreadyInstalled) && *final(st) == *old(st),
        (!old(st).file_hooks.wide.installed && !old(st).file_hooks.narrow.installed) ==> match (
            create_file_w,
            create_file_a,
        ) {
            (Some(w), Some(a)) => {
                &&& r == Ok::<(), InstallError>(())
                &&& final(st).file_hooks.wide == Detour::spec_armed(w)
                &&& final(st).file_hooks.narrow == Detour::spec_armed(a)
                &&& final(st).game_load == old(st).game_load
                &&& final(st).state_slot == old(st).state_slot
            },
            _ => r == Err::<(), InstallError>(InstallError::SymbolUnresolved) && *final(st)
                == *old(st),
        },
{
    if st.file_hooks.wide.installed || st.file_hooks.narrow.installed {
        return Err(InstallError::AlreadyInstalled);
    }
    let w_addr: u64;
    let a_addr: u64;
    match (create_file_w, create_file_a) {
        (Some(w), Some(a)) => {
            w_addr = w;
            a_addr = a;
        },
        _ => {
            return Err(InstallError::SymbolUnresolved);
        },
    }
    let _ = st.file_hooks.wide.install(w_addr);
    st.file_hooks.wide.enable();
    let _ = st.file_hooks.narrow.install(a_addr);
    st.file_hooks.narrow.enable();
    Ok(())
}

/// What `install_on_game_load` owes: a missing code section or a missing
/// pattern (or a hit too close to the section's end to carry the `mov`'s
/// displacement field) succeeds and changes nothing; a usable hit arms the
/// game-load detour at the hit and records the resolved data symbol, unless
/// that detour is already present, which fails cleanly and changes nothing.
pub open spec fn install_on_game_load_ok(
    pre: Stage1,
    post: Stage1,
    env: GameEnv,
    r: Result<(), InstallError>,
) -> bool {
    match env.text {
        None => r == Ok::<(), InstallError>(()) && post == pre,
        Some(ts) => {
            &&& ((forall|j: int| !matches_at(ts.bytes@, game_load_pattern_spec(), j)) ==> r
                == Ok::<(), InstallError>(()) && post == pre)
            &&& (forall|i: int|
                is_first_match(ts.bytes@, game_load_pattern_spec(), i) ==> if i + 0x1f
                    > ts.bytes@.len() {
                    r == Ok::<(), InstallError>(()) && post == pre
                } else if pre.game_load.installed {
                    r == Err::<(), InstallError>(InstallError::AlreadyInstalled) && post == pre
                } else {
                    &&& r == Ok::<(), InstallError>(())
                    &&& post.game_load == Detour::spec_armed(wrap64(ts.base + i))
                    &&& post.state_slot == Some(
                        wrap64(ts.base + i + 0x1f + sext32(le32_at(ts.bytes@, i + 0x1b))),
                    )
                    &&& post.file_hooks == pre.file_hooks
                })
        },
    }
}

/// Locate the game-load routine by its prologue pattern and arm the
/// per-load detour on it; soft-miss when the pattern is absent.
pub fn install_on_game_load(st: &mut Stage1, env: &GameEnv) -> (r: Result<(), InstallError>)
    ensures
        install_on_game_load_ok(*old(st), *final(st), *env, r),
{
    let ts = match &env.text {
        None => {
            return Ok(());
        },
        Some(ts) => ts,
    };
    let pat = game_load_pattern();
    let hit = match find_pattern(&ts.bytes, &pat) {
        None => {
            return Ok(());
        },
        Some(i) => i,
    };
    proof {
        assert forall|i2: int|
            is_first_match(ts.bytes@, game_load_pattern_spec(), i2) implies i2 == hit as int by {
            if i2 < hit {
                assert(!matches_at(ts.bytes@, game_load_pattern_spec(), i2));
            } else if i2 > hit {
                assert(!matches_at(ts.bytes@, game_load_pattern_spec(), hit as int));
            }
        }
    }
    if ts.bytes.len() - hit < 0x1f {
        return Ok(());
    }
    if st.game_load.installed {
        return Err(InstallError::AlreadyInstalled);
    }
    let disp = read_u32_le(&ts.bytes, hit + 0x1b);
    let target = wrapping_offset(ts.base, hit as u64);
    let resolved = resolve_rip(ts.base, hit, disp);
    let _ = st.game_load.install(target);
    st.game_load.enable();
    st.state_slot = Some(resolved);
    Ok(())
}

} // verus!
