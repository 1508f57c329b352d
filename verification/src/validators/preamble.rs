//! Semantic check of the module preamble: the magic bytes and the version.

use vstd::prelude::*;

verus! {

#[derive(PartialEq, Eq, Structural, Clone, Copy, Debug)]
pub enum PreambleValidationError {
    BadVersion,
    BadMagicNumber,
}

/// The four magic bytes every module must begin with.
pub open spec fn spec_wasm_magic() -> Seq<u8> {
    seq![0x00u8, 0x61u8, 0x73u8, 0x6Du8]
}

/// The only module version this validator accepts.
pub open spec fn spec_wasm_supported_version() -> u32 {
    1
}

/// Accepts exactly the magic bytes `\0asm` followed by version 1; a wrong
/// magic number is reported before a wrong version.
pub fn validate_preamble(magic_number: &[u8], version: u32) -> (r: Result<
    (),
    PreambleValidationError,
>)
    ensures
        match r {
            Ok(()) => magic_number@ == spec_wasm_magic() && version
                == spec_wasm_supported_version(),
            Err(PreambleValidationError::BadMagicNumber) => magic_number@ != spec_wasm_magic(),
            Err(PreambleValidationError::BadVersion) => magic_number@ == spec_wasm_magic()
                && version != spec_wasm_supported_version(),
        },
{
    let ok = magic_number.len() == 4 && *vstd::slice::slice_index_get(magic_number, 0) == 0x00
        && *vstd::slice::slice_index_get(magic_number, 1) == 0x61
        && *vstd::slice::slice_index_get(magic_number, 2) == 0x73
        && *vstd::slice::slice_index_get(magic_number, 3) == 0x6D;
    if ok {
        proof {
            assert(magic_number@ =~= spec_wasm_magic());
        }
        if version == 1 {
            Ok(())
        } else {
            Err(PreambleValidationError::BadVersion)
        }
    } else {
        proof {
            if magic_number@.len() == 4 {
                assert(magic_number@ != spec_wasm_magic()) by {
                    if magic_number@ == spec_wasm_magic() {
                        assert(magic_number@[0] == 0x00u8);
                        assert(magic_number@[1] == 0x61u8);
                        assert(magic_number@[2] == 0x73u8);
                        assert(magic_number@[3] == 0x6Du8);
                    }
                };
            }
        }
        Err(PreambleValidationError::BadMagicNumber)
    }
}

} // verus!
