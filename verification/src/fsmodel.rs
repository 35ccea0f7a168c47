//! A mathematical model of the filesystem during image relocation.
//!
//! A filesystem is a map from canonical paths to file contents. Relocation
//! renames a file: the destination receives exactly the bytes the source
//! held, and the source ceases to exist. The laws below are what the
//! materializer relies on of the one rename the unverified driver performs
//! per produced image.

use vstd::prelude::*;

verus! {

/// The effect of renaming `src` to `dst` on a filesystem.
pub open spec fn fs_rename(
    fs: Map<Seq<char>, Seq<u8>>,
    src: Seq<char>,
    dst: Seq<char>,
) -> Map<Seq<char>, Seq<u8>> {
    fs.remove(src).insert(dst, fs[src])
}

/// The effect of materializing one firmware variant: an artifact present at
/// `src` is renamed to `dst` and the slot records the destination; an absent
/// artifact leaves the filesystem untouched and the slot empty.
pub open spec fn variant_effect(
    fs: Map<Seq<char>, Seq<u8>>,
    src: Seq<char>,
    dst: Seq<char>,
) -> (Map<Seq<char>, Seq<u8>>, Option<Seq<char>>) {
    if fs.contains_key(src) {
        (fs_rename(fs, src, dst), Some(dst))
    } else {
        (fs, None)
    }
}

/// A rename is a move, not a copy: the destination holds exactly the bytes
/// the source held, and the source no longer exists.
pub proof fn lemma_rename_is_a_move(fs: Map<Seq<char>, Seq<u8>>, src: Seq<char>, dst: Seq<char>)
    requires
        fs.contains_key(src),
        src != dst,
    ensures
        fs_rename(fs, src, dst).contains_key(dst),
        fs_rename(fs, src, dst)[dst] == fs[src],
        !fs_rename(fs, src, dst).contains_key(src),
{
}

/// A present artifact is materialized under its fixed destination name,
/// byte-identical to the pre-move artifact, and vanishes from its original
/// path.
pub proof fn lemma_variant_effect_present(
    fs: Map<Seq<char>, Seq<u8>>,
    src: Seq<char>,
    dst: Seq<char>,
)
    requires
        fs.contains_key(src),
        src != dst,
    ensures
        variant_effect(fs, src, dst).1 == Some(dst),
        variant_effect(fs, src, dst).0.contains_key(dst),
        variant_effect(fs, src, dst).0[dst] == fs[src],
        !variant_effect(fs, src, dst).0.contains_key(src),
{
}

/// An absent artifact yields an empty slot and leaves the filesystem
/// untouched: missing is not an error at this layer.
pub proof fn lemma_variant_effect_absent(
    fs: Map<Seq<char>, Seq<u8>>,
    src: Seq<char>,
    dst: Seq<char>,
)
    requires
        !fs.contains_key(src),
    ensures
        variant_effect(fs, src, dst).1 is None,
        variant_effect(fs, src, dst).0 == fs,
{
}

/// The effect of materializing both firmware variants, BIOS first.
pub open spec fn materialize_effect(
    fs: Map<Seq<char>, Seq<u8>>,
    bios_src: Seq<char>,
    bios_dst: Seq<char>,
    uefi_src: Seq<char>,
    uefi_dst: Seq<char>,
) -> (Map<Seq<char>, Seq<u8>>, Option<Seq<char>>, Option<Seq<char>>) {
    let (fs1, bios) = variant_effect(fs, bios_src, bios_dst);
    let (fs2, uefi) = variant_effect(fs1, uefi_src, uefi_dst);
    (fs2, bios, uefi)
}

/// Every variant the builder actually emitted appears under its fixed
/// destination path with its original bytes, and no intermediate artifact
/// survives at its original path.
pub proof fn lemma_materialize_effect(
    fs: Map<Seq<char>, Seq<u8>>,
    bios_src: Seq<char>,
    bios_dst: Seq<char>,
    uefi_src: Seq<char>,
    uefi_dst: Seq<char>,
)
    requires
        bios_src != bios_dst,
        uefi_src != uefi_dst,
        bios_src != uefi_src,
        bios_src != uefi_dst,
        bios_dst != uefi_src,
        bios_dst != uefi_dst,
    ensures
        fs.contains_key(bios_src) ==> {
            let r = materialize_effect(fs, bios_src, bios_dst, uefi_src, uefi_dst);
            &&& r.1 == Some(bios_dst)
            &&& r.0.contains_key(bios_dst)
            &&& r.0[bios_dst] == fs[bios_src]
            &&& !r.0.contains_key(bios_src)
        },
        !fs.contains_key(bios_src) ==> materialize_effect(
            fs,
            bios_src,
            bios_dst,
            uefi_src,
            uefi_dst,
        ).1 is None,
        fs.contains_key(uefi_src) ==> {
            let r = materialize_effect(fs, bios_src, bios_dst, uefi_src, uefi_dst);
            &&& r.2 == Some(uefi_dst)
            &&& r.0.contains_key(uefi_dst)
            &&& r.0[uefi_dst] == fs[uefi_src]
            &&& !r.0.contains_key(uefi_src)
        },
        !fs.contains_key(uefi_src) ==> materialize_effect(
            fs,
            bios_src,
            bios_dst,
            uefi_src,
            uefi_dst,
        ).2 is None,
{
}

} // verus!
