use emu_ram::host::Host;
use emu_ram::shared::MemoryRegion;
use emu_ram::{genesis, ps1, wii, Endianness, Error, Width};

/// A scripted host: fixed process table, byte segments standing for the
/// target's memory, a module table and a region list.
struct MockHost {
    attachable: Vec<(&'static str, u64)>,
    open: bool,
    segments: Vec<(u64, Vec<u8>)>,
    modules: Vec<(&'static str, u64, u64)>,
    regions: Vec<MemoryRegion>,
}

impl MockHost {
    fn empty() -> MockHost {
        MockHost {
            attachable: Vec::new(),
            open: true,
            segments: Vec::new(),
            modules: Vec::new(),
            regions: Vec::new(),
        }
    }
}

impl Host for MockHost {
    fn attach(&mut self, name: &str) -> Option<u64> {
        self.attachable.iter().find(|p| p.0 == name).map(|p| p.1)
    }

    fn is_open(&mut self, _process: u64) -> bool {
        self.open
    }

    fn read_bytes(&mut self, _process: u64, address: u64, len: usize) -> Option<Vec<u8>> {
        for (base, data) in &self.segments {
            if address >= *base && address - *base <= data.len() as u64 {
                let offset = (address - *base) as usize;
                if offset + len <= data.len() {
                    return Some(data[offset..offset + len].to_vec());
                }
            }
        }
        None
    }

    fn module_address(&mut self, _process: u64, name: &str) -> Option<u64> {
        self.modules.iter().find(|m| m.0 == name).map(|m| m.1)
    }

    fn module_size(&mut self, _process: u64, name: &str) -> Option<u64> {
        self.modules.iter().find(|m| m.0 == name).map(|m| m.2)
    }

    fn memory_regions(&mut self, _process: u64) -> Vec<MemoryRegion> {
        self.regions.clone()
    }
}

/// A Gens process image: the copy-loop signature inside the main module,
/// the RAM pointer operand eleven bytes past the match, and the byte-order
/// flag four bytes further.
fn gens_host() -> MockHost {
    let mut host = MockHost::empty();
    host.attachable.push(("gens.exe", 5));
    host.modules.push(("gens.exe", 0x400000, 0x2000));

    let mut module = vec![0u8; 0x2000];
    let sig = [0x72u8, 0x11, 0x81, 0x22, 0xFF, 0xFF, 0x00, 0x00, 0x66, 0x8B];
    module[0x100..0x10A].copy_from_slice(&sig);
    // Operand at match + 11: the RAM base 0x500000, stored little-endian.
    module[0x10B..0x10F].copy_from_slice(&[0x00, 0x00, 0x50, 0x00]);
    // Flag at operand + 4: 0x86 marks a big-endian build.
    module[0x10F] = 0x86;
    host.segments.push((0x400000, module));

    let mut wram = vec![0u8; 0x100];
    wram[0] = 0xAB;
    wram[1] = 0xCD;
    wram[2] = 0x12;
    wram[3] = 0x34;
    host.segments.push((0x500000, wram));
    host
}

#[test]
fn genesis_update_fails_without_process() {
    let mut host = MockHost::empty();
    let mut state = genesis::State::new();
    assert!(!genesis::update(&mut host, &mut state));
    assert!(!state.is_ready());
}

#[test]
fn genesis_locates_gens_and_reads_big_endian() {
    let mut host = gens_host();
    let mut state = genesis::State::new();
    assert!(genesis::update(&mut host, &mut state));
    assert!(state.is_ready());
    assert_eq!(state.wram_base(), Some(0x500000));

    // 16-bit read, decoded in the build's big-endian order.
    assert_eq!(genesis::read(&mut host, &state, 0, Width::W16), Ok(0xABCD));
    assert_eq!(genesis::read(&mut host, &state, 2, Width::W16), Ok(0x1234));
    assert_eq!(genesis::read(&mut host, &state, 0, Width::W32), Ok(0xABCD1234));
    // Single-byte reads target the swapped host address.
    assert_eq!(genesis::read(&mut host, &state, 0, Width::W8), Ok(0xCD));
    assert_eq!(genesis::read(&mut host, &state, 1, Width::W8), Ok(0xAB));
    // The raw variant decodes in the host's own order instead.
    assert_eq!(
        genesis::read_ignoring_endianness(&mut host, &state, 0, Width::W16),
        Ok(0xCDAB)
    );
}

#[test]
fn genesis_read_errors_by_kind() {
    let mut host = gens_host();
    let mut state = genesis::State::new();

    // Out of range beats not ready: the window check ignores session
    // state.
    assert_eq!(
        genesis::read(&mut host, &state, 0x10000, Width::W16),
        Err(Error::OutOfRange)
    );
    assert_eq!(
        genesis::read(&mut host, &state, 0, Width::W16),
        Err(Error::NotReady)
    );

    assert!(genesis::update(&mut host, &mut state));
    // Valid window, ready session, but the page is not mapped.
    assert_eq!(
        genesis::read(&mut host, &state, 0x8000, Width::W16),
        Err(Error::ReadFault)
    );
}

#[test]
fn genesis_session_survives_revalidation_and_resets_on_close() {
    let mut host = gens_host();
    let mut state = genesis::State::new();
    assert!(genesis::update(&mut host, &mut state));
    let base = state.wram_base();

    // Repeated ticks with an unchanged process never move the pointer.
    assert!(genesis::update(&mut host, &mut state));
    assert!(genesis::update(&mut host, &mut state));
    assert_eq!(state.wram_base(), base);

    // A closed process resets the whole session.
    host.open = false;
    assert!(!genesis::update(&mut host, &mut state));
    assert!(state.endianness().is_none());

    // The next tick re-attaches and relocates from scratch.
    host.open = true;
    assert!(genesis::update(&mut host, &mut state));
    assert_eq!(state.wram_base(), base);
}

#[test]
fn genesis_stays_attached_while_locate_fails() {
    let mut host = gens_host();
    host.modules.clear();
    let mut state = genesis::State::new();

    // Attach succeeds but no module means no locate: attached, not ready.
    assert!(!genesis::update(&mut host, &mut state));
    assert!(state.endianness().is_some());
    assert!(!state.is_ready());
    assert!(!genesis::update(&mut host, &mut state));

    // Once the module appears the same session becomes ready.
    host.modules.push(("gens.exe", 0x400000, 0x2000));
    assert!(genesis::update(&mut host, &mut state));
}

/// A Fusion process image: the branch whose 8-bit displacement leads to
/// the pointer-cell operand, the cell inside the module, and the RAM
/// behind it.
fn fusion_host() -> MockHost {
    let mut host = MockHost::empty();
    host.attachable.push(("Fusion.exe", 6));
    host.modules.push(("Fusion.exe", 0x400000, 0x1000));

    let mut module = vec![0u8; 0x1000];
    // Match at 0x40; the byte after the match (0x2F) plus three skips to
    // the operand at module offset 0x73.
    module[0x40..0x44].copy_from_slice(&[0x75, 0x2F, 0x6A, 0x01]);
    // Operand: the pointer cell lives at 0x400800.
    module[0x73..0x77].copy_from_slice(&[0x00, 0x08, 0x40, 0x00]);
    // The cell holds the RAM base 0x650000.
    module[0x800..0x804].copy_from_slice(&[0x00, 0x00, 0x65, 0x00]);
    host.segments.push((0x400000, module));

    let mut wram = vec![0u8; 0x10];
    wram[0] = 0x01;
    wram[1] = 0x02;
    host.segments.push((0x650000, wram));
    host
}

#[test]
fn genesis_fusion_resolves_double_indirection_big_endian() {
    let mut host = fusion_host();
    let mut state = genesis::State::new();
    assert!(genesis::update(&mut host, &mut state));
    assert_eq!(state.wram_base(), Some(0x650000));
    assert_eq!(state.endianness(), Some(Endianness::Big));
    assert_eq!(genesis::read(&mut host, &state, 0, Width::W16), Ok(0x0102));

    // Revalidation re-derefs the cell each tick; a moved cell content is
    // followed without a rescan.
    host.segments[0].1[0x800..0x804].copy_from_slice(&[0x00, 0x00, 0x66, 0x00]);
    assert!(genesis::update(&mut host, &mut state));
    assert_eq!(state.wram_base(), Some(0x660000));
}

/// A BlastEm process image with two writable regions of the magic size,
/// both holding the signature: the scan must stop at the first.
fn blastem_host() -> MockHost {
    let mut host = MockHost::empty();
    host.attachable.push(("blastem.exe", 8));

    let sig_with_operand = |wram: [u8; 4]| {
        let mut region = vec![0u8; 0x101000];
        region[0x10..0x1B].copy_from_slice(&[
            0x72, 0x0E, 0x81, 0xE1, 0xFF, 0xFF, 0x00, 0x00, 0x66, 0x8B, 0x89,
        ]);
        region[0x1B..0x1F].copy_from_slice(&wram);
        region[0x1F] = 0xC3;
        region
    };
    host.regions.push(MemoryRegion {
        base: 0x20000000,
        size: 0x101000,
        readable: true,
        writable: true,
        executable: false,
    });
    host.regions.push(MemoryRegion {
        base: 0x30000000,
        size: 0x101000,
        readable: true,
        writable: true,
        executable: false,
    });
    host.segments.push((0x20000000, sig_with_operand([0x00, 0x00, 0x67, 0x00])));
    host.segments.push((0x30000000, sig_with_operand([0x00, 0x00, 0x68, 0x00])));

    let mut wram = vec![0u8; 0x10];
    wram[0] = 0x11;
    wram[1] = 0x77;
    host.segments.push((0x670000, wram));
    host
}

#[test]
fn genesis_blastem_first_region_hit_wins() {
    let mut host = blastem_host();
    let mut state = genesis::State::new();
    assert!(genesis::update(&mut host, &mut state));
    // Both candidate regions match; the one enumerated first is taken and
    // the later one is never consulted.
    assert_eq!(state.wram_base(), Some(0x670000));
    assert_eq!(state.endianness(), Some(Endianness::Little));
    // Little-endian build: no value swap, but single-byte reads still
    // flip the host address.
    assert_eq!(genesis::read(&mut host, &state, 0, Width::W16), Ok(0x7711));
    assert_eq!(genesis::read(&mut host, &state, 0, Width::W8), Ok(0x77));
}

/// A pSX process image carrying only the third-newest signature
/// generation, so the ordered fallback has to walk past the first two.
fn psxfin_host() -> MockHost {
    let mut host = MockHost::empty();
    host.attachable.push(("psxfin.exe", 4));
    host.modules.push(("psxfin.exe", 0x400000, 0x1000));

    let mut module = vec![0u8; 0x1000];
    module[0x30..0x39].copy_from_slice(&[
        0xA1, 0x00, 0x07, 0x40, 0x00, 0x8B, 0x7C, 0x24, 0x14,
    ]);
    // The cell at 0x400700 holds the RAM base 0x660000.
    module[0x700..0x704].copy_from_slice(&[0x00, 0x00, 0x66, 0x00]);
    host.segments.push((0x400000, module));

    let mut wram = vec![0u8; 0x10];
    wram[0] = 0x33;
    host.segments.push((0x660000, wram));
    host
}

#[test]
fn ps1_psxfin_falls_through_signature_generations() {
    let mut host = psxfin_host();
    let mut state = ps1::State::new();
    assert!(ps1::update(&mut host, &mut state));
    assert_eq!(state.wram_base(), Some(0x660000));
    assert_eq!(ps1::read(&mut host, &state, 0, Width::W8), Ok(0x33));
}

/// A RetroArch process image: the 64-bit marker in the frontend's first
/// page, a Beetle-PSX core module with its instruction-pointer-relative
/// pointer cell, and the RAM behind it.
fn retroarch_psx_host() -> MockHost {
    let mut host = MockHost::empty();
    host.attachable.push(("retroarch.exe", 12));
    host.modules.push(("retroarch.exe", 0x500000, 0x1000));
    host.modules.push(("mednafen_psx_hw_libretro.dll", 0x7F0000000, 0x1000));

    let mut frontend = vec![0u8; 0x1000];
    frontend[0x80..0x85].copy_from_slice(&[0x50, 0x45, 0x00, 0x00, 0x64]);
    host.segments.push((0x500000, frontend));

    let mut core = vec![0u8; 0x1000];
    // Match at 0x60; the displacement 0x899 leads from 0x67 to the
    // pointer cell at module offset 0x900.
    core[0x60..0x6E].copy_from_slice(&[
        0x48, 0x8B, 0x05, 0x99, 0x08, 0x00, 0x00, 0x41, 0x81, 0xE4, 0xFF, 0xFF, 0x1F, 0x00,
    ]);
    core[0x900..0x908].copy_from_slice(&[0x00, 0x00, 0x80, 0x00, 0x00, 0x00, 0x00, 0x00]);
    host.segments.push((0x7F0000000, core));

    let mut wram = vec![0u8; 0x10];
    wram[0] = 0x0F;
    host.segments.push((0x800000, wram));
    host
}

#[test]
fn ps1_retroarch_dispatches_to_loaded_core() {
    let mut host = retroarch_psx_host();
    let mut state = ps1::State::new();
    assert!(ps1::update(&mut host, &mut state));
    assert_eq!(state.wram_base(), Some(0x800000));
    assert_eq!(ps1::read(&mut host, &state, 0, Width::W8), Ok(0x0F));

    // Revalidation probes the core module's base; dropping it ends
    // readiness.
    host.segments.remove(1);
    assert!(!ps1::update(&mut host, &mut state));
    assert!(state.wram_base().is_none());
}

/// A RetroArch process image: no 64-bit marker in the frontend's first
/// page, and the PicoDrive core with its absolute 32-bit operand.
fn retroarch_picodrive_host() -> MockHost {
    let mut host = MockHost::empty();
    host.attachable.push(("retroarch.exe", 13));
    host.modules.push(("retroarch.exe", 0x400000, 0x1000));
    host.modules.push(("picodrive_libretro.dll", 0x10000000, 0x1000));
    host.segments.push((0x400000, vec![0u8; 0x1000]));

    let mut core = vec![0u8; 0x1000];
    core[0x70..0x78].copy_from_slice(&[0xB9, 0x00, 0x00, 0x69, 0x00, 0xC1, 0xEF, 0x10]);
    host.segments.push((0x10000000, core));

    let mut wram = vec![0u8; 0x10];
    wram[0] = 0x21;
    wram[1] = 0x43;
    host.segments.push((0x690000, wram));
    host
}

#[test]
fn genesis_retroarch_takes_32_bit_branch_for_picodrive() {
    let mut host = retroarch_picodrive_host();
    let mut state = genesis::State::new();
    assert!(genesis::update(&mut host, &mut state));
    assert_eq!(state.wram_base(), Some(0x690000));
    assert_eq!(state.endianness(), Some(Endianness::Little));
    assert_eq!(genesis::read(&mut host, &state, 0, Width::W16), Ok(0x4321));
}

/// A SEGA Game Room process image: the wrapper DLL is loaded, so its own
/// signature is used rather than the main module's.
fn segaclassics_host() -> MockHost {
    let mut host = MockHost::empty();
    host.attachable.push(("SEGAGameRoom.exe", 16));
    host.modules.push(("GenesisEmuWrapper.dll", 0x10000000, 0x1000));

    let mut wrapper = vec![0u8; 0x1000];
    wrapper[0x40..0x50].copy_from_slice(&[
        0xC7, 0x05, 0x00, 0x08, 0x00, 0x10, 0x00, 0x00, 0x00, 0x00, 0xA3, 0x00, 0x00, 0x00,
        0x00, 0xA3,
    ]);
    // The cell at 0x10000800 holds the RAM base 0x6C0000.
    wrapper[0x800..0x804].copy_from_slice(&[0x00, 0x00, 0x6C, 0x00]);
    host.segments.push((0x10000000, wrapper));

    let mut wram = vec![0u8; 0x10];
    wram[0] = 0x88;
    wram[1] = 0x99;
    host.segments.push((0x6C0000, wram));
    host
}

#[test]
fn genesis_segaclassics_uses_wrapper_module() {
    let mut host = segaclassics_host();
    let mut state = genesis::State::new();
    assert!(genesis::update(&mut host, &mut state));
    assert_eq!(state.wram_base(), Some(0x6C0000));
    assert_eq!(state.endianness(), Some(Endianness::Little));
    // Little-endian build: single-byte reads still flip the host address.
    assert_eq!(genesis::read(&mut host, &state, 0, Width::W8), Ok(0x99));
    assert_eq!(genesis::read(&mut host, &state, 0, Width::W16), Ok(0x9988));
}

/// A PCSX-Redux process image, 32-bit: the direct pointer cell sits in a
/// writable region, and revalidation checks the cell still holds the
/// value found at locate time.
fn pcsx_redux_host() -> MockHost {
    let mut host = MockHost::empty();
    host.attachable.push(("pcsx-redux.main", 14));
    host.modules.push(("pcsx-redux.main", 0x400000, 0x1000));
    host.segments.push((0x400000, vec![0u8; 0x1000]));
    host.regions.push(MemoryRegion {
        base: 0x20000000,
        size: 0x5000,
        readable: true,
        writable: true,
        executable: false,
    });

    let mut region = vec![0u8; 0x5000];
    region[0x100..0x112].copy_from_slice(&[
        0x8B, 0x3D, 0x20, 0x00, 0x6A, 0x00, 0x0F, 0xB7, 0xD3, 0x8B, 0x04, 0x95, 0x00, 0x00,
        0x00, 0x00, 0x21, 0x05,
    ]);
    host.segments.push((0x20000000, region));

    let mut wram = vec![0u8; 0x10];
    wram[0] = 0x55;
    host.segments.push((0x6A0020, wram));
    host
}

#[test]
fn ps1_pcsx_redux_checks_cell_value_on_revalidation() {
    let mut host = pcsx_redux_host();
    let mut state = ps1::State::new();
    assert!(ps1::update(&mut host, &mut state));
    assert_eq!(state.wram_base(), Some(0x6A0020));
    assert_eq!(ps1::read(&mut host, &state, 0, Width::W8), Ok(0x55));

    // Repeated ticks with the cell unchanged keep the session ready.
    assert!(ps1::update(&mut host, &mut state));
    assert_eq!(state.wram_base(), Some(0x6A0020));

    // A changed cell value fails revalidation and drops the pointer; the
    // next tick relocates and finds the new base.
    host.segments[1].1[0x103] = 0x01;
    assert!(!ps1::update(&mut host, &mut state));
    assert!(state.wram_base().is_none());
    assert!(ps1::update(&mut host, &mut state));
    assert_eq!(state.wram_base(), Some(0x6A0120));
}

/// A XEBRA process image: the prologue signature, an instruction-pointer-
/// relative hop, the fixed field offset, and a double-indirect RAM
/// pointer.
fn xebra_host() -> MockHost {
    let mut host = MockHost::empty();
    host.attachable.push(("XEBRA.EXE", 15));
    host.modules.push(("XEBRA.EXE", 0x400000, 0x1000));

    let mut module = vec![0u8; 0x1000];
    // Match at 0x50; the displacement 0x4AB leads from 0x55 to 0x400500.
    module[0x50..0x5F].copy_from_slice(&[
        0xE8, 0xAB, 0x04, 0x00, 0x00, 0xE9, 0x00, 0x00, 0x00, 0x00, 0x89, 0xC8, 0xC1, 0xF8,
        0x10,
    ]);
    // The field 0x16A past the hop target names the cell at 0x400800,
    // which holds the RAM base 0x6B0000.
    module[0x66A..0x66E].copy_from_slice(&[0x00, 0x08, 0x40, 0x00]);
    module[0x800..0x804].copy_from_slice(&[0x00, 0x00, 0x6B, 0x00]);
    host.segments.push((0x400000, module));

    let mut wram = vec![0u8; 0x10];
    wram[0] = 0x66;
    host.segments.push((0x6B0000, wram));
    host
}

#[test]
fn ps1_xebra_resolves_double_indirection() {
    let mut host = xebra_host();
    let mut state = ps1::State::new();
    assert!(ps1::update(&mut host, &mut state));
    assert_eq!(state.wram_base(), Some(0x6B0000));
    assert_eq!(ps1::read(&mut host, &state, 0, Width::W8), Ok(0x66));
}

/// An ePSXe process image: the shift-and-index fragment in the main
/// module with the RAM pointer operand right after it.
fn epsxe_host() -> MockHost {
    let mut host = MockHost::empty();
    host.attachable.push(("ePSXe.exe", 9));
    host.modules.push(("ePSXe.exe", 0x401000, 0x1000));

    let mut module = vec![0u8; 0x1000];
    let sig = [0xC1u8, 0xE1, 0x10, 0x8D, 0x89];
    module[0x20..0x25].copy_from_slice(&sig);
    module[0x25..0x29].copy_from_slice(&[0x00, 0x00, 0x60, 0x00]);
    host.segments.push((0x401000, module));

    let mut wram = vec![0u8; 0x2000];
    wram[0x1234] = 0x77;
    wram[0x1235] = 0x88;
    host.segments.push((0x600000, wram));
    host
}

#[test]
fn ps1_mirrored_reads_return_identical_values() {
    let mut host = epsxe_host();
    let mut state = ps1::State::new();
    assert!(ps1::update(&mut host, &mut state));
    assert_eq!(state.wram_base(), Some(0x600000));

    // The raw offset and its KSEG-style alias read the same bytes.
    assert_eq!(ps1::read(&mut host, &state, 0x1234, Width::W8), Ok(0x77));
    assert_eq!(ps1::read(&mut host, &state, 0x80001234, Width::W8), Ok(0x77));
    assert_eq!(ps1::read(&mut host, &state, 0x1234, Width::W16), Ok(0x8877));
    assert_eq!(
        ps1::read(&mut host, &state, 0x80001234, Width::W16),
        Ok(0x8877)
    );
    // No valid window reaches past the RAM mirror.
    assert_eq!(
        ps1::read(&mut host, &state, 0x200000, Width::W8),
        Err(Error::OutOfRange)
    );
}

/// A DuckStation process image: the store instruction referencing the RAM
/// pointer cell instruction-pointer-relatively, the cell inside the same
/// module, and the RAM behind it.
fn duckstation_host() -> MockHost {
    let mut host = MockHost::empty();
    host.attachable.push(("duckstation-qt-x64-ReleaseLTCG.exe", 11));
    host.modules.push(("duckstation-qt-x64-ReleaseLTCG.exe", 0x140000000, 0x1000));

    let mut module = vec![0u8; 0x1000];
    // Match at 0x50; the displacement 0x7A9 leads from 0x57 to the
    // pointer cell at module offset 0x800.
    let sig = [0x48u8, 0x89, 0x0D, 0xA9, 0x07, 0x00, 0x00, 0xB8];
    module[0x50..0x58].copy_from_slice(&sig);
    module[0x800..0x808].copy_from_slice(&[0x00, 0x00, 0x70, 0x00, 0x00, 0x00, 0x00, 0x00]);
    host.segments.push((0x140000000, module));

    let mut wram = vec![0u8; 0x100];
    wram[0] = 0x5A;
    host.segments.push((0x700000, wram));
    host
}

#[test]
fn ps1_duckstation_follows_pointer_cell_on_revalidation() {
    let mut host = duckstation_host();
    let mut state = ps1::State::new();
    assert!(ps1::update(&mut host, &mut state));
    assert_eq!(state.wram_base(), Some(0x700000));
    assert_eq!(ps1::read(&mut host, &state, 0, Width::W8), Ok(0x5A));

    // The emulator reallocates its RAM: the cell now holds a new address,
    // and the next tick's revalidation follows it without a rescan.
    host.segments[0].1[0x800..0x808]
        .copy_from_slice(&[0x00, 0x00, 0x71, 0x00, 0x00, 0x00, 0x00, 0x00]);
    assert!(ps1::update(&mut host, &mut state));
    assert_eq!(state.wram_base(), Some(0x710000));

    // With the cell unreadable, revalidation fails and the pointer is
    // dropped; the session stays attached and recovers once the cell is
    // back.
    let module = host.segments.remove(0);
    assert!(!ps1::update(&mut host, &mut state));
    assert!(state.wram_base().is_none());
    host.segments.insert(0, module);
    assert!(ps1::update(&mut host, &mut state));
    assert_eq!(state.wram_base(), Some(0x710000));
}

/// A Dolphin process image: the two RAM banks as regions of their exact
/// sizes, with readable bytes at both bases.
fn dolphin_host() -> MockHost {
    let mut host = MockHost::empty();
    host.attachable.push(("Dolphin.exe", 3));
    host.regions.push(MemoryRegion {
        base: 0x10000000,
        size: 0x2000000,
        readable: true,
        writable: true,
        executable: false,
    });
    host.regions.push(MemoryRegion {
        base: 0x14000000,
        size: 0x4000000,
        readable: true,
        writable: true,
        executable: false,
    });

    let mut mem1 = vec![0u8; 0x1010];
    mem1[0] = 0xDE;
    mem1[1] = 0xAD;
    mem1[2] = 0xBE;
    mem1[3] = 0xEF;
    mem1[0x1000] = 0x42;
    host.segments.push((0x10000000, mem1));

    let mut mem2 = vec![0u8; 0x10];
    mem2[0] = 0x99;
    host.segments.push((0x14000000, mem2));
    host
}

#[test]
fn wii_locates_both_banks_and_reads_big_endian() {
    let mut host = dolphin_host();
    let mut state = wii::State::new();
    assert!(wii::update(&mut host, &mut state));
    assert_eq!(state.ram_bases(), Some((0x10000000, 0x14000000)));

    // Every value is byte-order-reversed from the big-endian console.
    assert_eq!(wii::read(&mut host, &state, 0x80000000, Width::W32), Ok(0xDEADBEEF));
    assert_eq!(wii::read(&mut host, &state, 0, Width::W32), Ok(0xDEADBEEF));
    // The raw offset and its mapped alias read the same byte.
    assert_eq!(wii::read(&mut host, &state, 0x1000, Width::W8), Ok(0x42));
    assert_eq!(wii::read(&mut host, &state, 0x80001000, Width::W8), Ok(0x42));
    // The first MEM2 address is MEM2 offset zero.
    assert_eq!(wii::read(&mut host, &state, 0x90000000, Width::W8), Ok(0x99));
}

#[test]
fn wii_boundary_reads() {
    let mut host = dolphin_host();
    let mut state = wii::State::new();
    assert!(wii::update(&mut host, &mut state));

    // The last valid MEM1 address translates but its page is unmapped
    // here; one past it is out of range whatever the host holds.
    assert_eq!(
        wii::read(&mut host, &state, 0x817FFFFF, Width::W8),
        Err(Error::ReadFault)
    );
    assert_eq!(
        wii::read(&mut host, &state, 0x81800000, Width::W8),
        Err(Error::OutOfRange)
    );
    assert_eq!(
        wii::read_from_mem_2(&mut host, &state, 0x1000, Width::W8),
        Err(Error::OutOfRange)
    );
}

#[test]
fn wii_revalidation_failure_drops_both_banks() {
    let mut host = dolphin_host();
    let mut state = wii::State::new();
    assert!(wii::update(&mut host, &mut state));

    // One bank becoming unreadable fails revalidation; the pair is
    // dropped as a whole and found again once the bank is back.
    let mem2 = host.segments.remove(1);
    assert!(!wii::update(&mut host, &mut state));
    assert_eq!(state.ram_bases(), None);
    host.segments.push(mem2);
    assert!(wii::update(&mut host, &mut state));
    assert_eq!(state.ram_bases(), Some((0x10000000, 0x14000000)));
}

#[test]
fn wii_update_fails_when_regions_are_missing() {
    let mut host = dolphin_host();
    host.regions.clear();
    let mut state = wii::State::new();
    assert!(!wii::update(&mut host, &mut state));
    assert!(!state.is_ready());
    assert_eq!(state.ram_bases(), None);
}
