//! Construction of the argument vectors handed to the external tools.
//!
//! The caller-supplied build command is subdivided on spaces into argv; the
//! extra emulator arguments accept `|` as an alternate separator so that
//! callers can embed argument groups. Splitting keeps empty segments:
//! two adjacent separators delimit an empty argument.

use vstd::prelude::*;
use vstd::string::StrSliceExecFns;
use vstd::string::StringExecFns;

verus! {

/// Whether `c` separates arguments; `pipe` admits `|` besides the space.
pub open spec fn is_sep(c: char, pipe: bool) -> bool {
    c == ' ' || (pipe && c == '|')
}

/// The index of the first separator in `s`, or `s.len()` if there is none.
pub open spec fn first_sep(s: Seq<char>, pipe: bool) -> int
    decreases s.len(),
{
    if s.len() == 0 {
        0
    } else if is_sep(s[0], pipe) {
        0
    } else {
        1 + first_sep(s.drop_first(), pipe)
    }
}

/// The segments of `s` between separators, empty segments kept.
pub open spec fn split_spec(s: Seq<char>, pipe: bool) -> Seq<Seq<char>>
    decreases s.len(),
{
    let i = first_sep(s, pipe);
    if 0 <= i < s.len() {
        seq![s.subrange(0, i)] + split_spec(s.subrange(i + 1, s.len() as int), pipe)
    } else {
        seq![s]
    }
}

/// The views of a sequence of owned strings.
pub open spec fn seq_views(v: Seq<String>) -> Seq<Seq<char>> {
    v.map_values(|t: String| t@)
}

pub proof fn lemma_first_sep_bounds(s: Seq<char>, pipe: bool)
    ensures
        0 <= first_sep(s, pipe) <= s.len(),
        first_sep(s, pipe) < s.len() ==> is_sep(s[first_sep(s, pipe)], pipe),
        forall|j: int| 0 <= j < first_sep(s, pipe) ==> !is_sep(s[j], pipe),
    decreases s.len(),
{
    if s.len() == 0 {
    } else if is_sep(s[0], pipe) {
    } else {
        lemma_first_sep_bounds(s.drop_first(), pipe);
        assert forall|j: int| 0 <= j < first_sep(s, pipe) implies !is_sep(s[j], pipe) by {
            if j > 0 {
                assert(s.drop_first()[j - 1] == s[j]);
            }
        }
    }
}

/// `first_sep` is pinned by its characterization: no separator before `i`,
/// and a separator at `i` unless `i` is the length.
proof fn lemma_first_sep_at(s: Seq<char>, pipe: bool, i: int)
    requires
        0 <= i <= s.len(),
        forall|j: int| 0 <= j < i ==> !is_sep(s[j], pipe),
        i < s.len() ==> is_sep(s[i], pipe),
    ensures
        first_sep(s, pipe) == i,
{
    lemma_first_sep_bounds(s, pipe);
    let f = first_sep(s, pipe);
    if f < i {
        assert(is_sep(s[f], pipe));
    }
    if f > i {
        assert(!is_sep(s[i], pipe));
    }
}

/// Unfolds one step of `split_spec` at a known separator position.
proof fn lemma_split_head(s: Seq<char>, pipe: bool, i: int)
    requires
        0 <= i <= s.len(),
        forall|j: int| 0 <= j < i ==> !is_sep(s[j], pipe),
        i < s.len() ==> is_sep(s[i], pipe),
    ensures
        i < s.len() ==> split_spec(s, pipe) == seq![s.subrange(0, i)] + split_spec(
            s.subrange(i + 1, s.len() as int),
            pipe,
        ),
        i == s.len() ==> split_spec(s, pipe) == seq![s],
{
    lemma_first_sep_at(s, pipe, i);
}

/// Split a command string into argument segments.
fn split_on_separators(s: &str, pipe: bool) -> (r: Vec<String>)
    ensures
        seq_views(r@) == split_spec(s@, pipe),
{
    let n = s.unicode_len();
    let mut out: Vec<String> = Vec::new();
    let mut b: usize = 0;
    let mut i: usize = 0;
    proof {
        assert(s@.subrange(0, n as int) =~= s@);
        assert(seq_views(out@) =~= Seq::<Seq<char>>::empty());
        assert(seq_views(out@) + split_spec(s@, pipe) =~= split_spec(s@, pipe));
    }
    while i < n
        invariant
            b <= i <= n,
            n == s@.len(),
            forall|j: int| b <= j < i ==> !is_sep(s@[j], pipe),
            seq_views(out@) + split_spec(s@.subrange(b as int, n as int), pipe) == split_spec(
                s@,
                pipe,
            ),
        decreases n - i,
    {
        let c = s.get_char(i);
        if c == ' ' || (pipe && c == '|') {
            let seg = String::from_str(s.substring_char(b, i));
            out.push(seg);
            proof {
                let t = s@.subrange(b as int, n as int);
                assert forall|j: int| 0 <= j < i - b implies !is_sep(t[j], pipe) by {
                    assert(t[j] == s@[b + j]);
                }
                assert(is_sep(t[i - b], pipe));
                lemma_split_head(t, pipe, i - b);
                assert(t.subrange(0, i - b) =~= s@.subrange(b as int, i as int));
                assert(t.subrange(i - b + 1, t.len() as int) =~= s@.subrange(
                    i as int + 1,
                    n as int,
                ));
                assert(seq_views(out@) =~= seq_views(out@.drop_last()) + seq![s@.subrange(
                    b as int,
                    i as int,
                )]);
            }
            b = i + 1;
        }
        i = i + 1;
    }
    let seg = String::from_str(s.substring_char(b, n));
    out.push(seg);
    proof {
        let t = s@.subrange(b as int, n as int);
        assert forall|j: int| 0 <= j < t.len() implies !is_sep(t[j], pipe) by {
            assert(t[j] == s@[b + j]);
        }
        lemma_split_head(t, pipe, t.len() as int);
        assert(seq_views(out@) =~= seq_views(out@.drop_last()) + seq![t]);
        assert(seq_views(out@) =~= split_spec(s@, pipe));
    }
    out
}

/// Subdivide the caller-supplied build command on spaces into argv.
pub fn split_build_command(cmd: &str) -> (r: Vec<String>)
    ensures
        seq_views(r@) == split_spec(cmd@, false),
{
    split_on_separators(cmd, false)
}

/// Subdivide the extra emulator arguments on spaces and pipes into argv.
pub fn split_emulator_args(args: &str) -> (r: Vec<String>)
    ensures
        seq_views(r@) == split_spec(args@, true),
{
    split_on_separators(args, true)
}

/// The argument vector of one bootloader-builder invocation: quiet mode,
/// the kernel's build descriptor, the compiled kernel binary, an explicit
/// target directory, an explicit output directory, and — when UEFI is not
/// requested — an explicit BIOS firmware override.
pub open spec fn builder_argv_spec(
    kernel_manifest: Seq<char>,
    kernel_binary: Seq<char>,
    target_dir: Seq<char>,
    out_dir: Seq<char>,
    uefi: bool,
) -> Seq<Seq<char>> {
    let base = seq![
        "builder"@,
        "--quiet"@,
        "--kernel-manifest"@,
        kernel_manifest,
        "--kernel-binary"@,
        kernel_binary,
        "--target-dir"@,
        target_dir,
        "--out-dir"@,
        out_dir,
    ];
    if uefi {
        base
    } else {
        base + seq!["--firmware"@, "bios"@]
    }
}

/// Build the bootloader-builder argument vector.
pub fn builder_argv(
    kernel_manifest: &str,
    kernel_binary: &str,
    target_dir: &str,
    out_dir: &str,
    uefi: bool,
) -> (r: Vec<String>)
    ensures
        seq_views(r@) == builder_argv_spec(
            kernel_manifest@,
            kernel_binary@,
            target_dir@,
            out_dir@,
            uefi,
        ),
{
    let mut r: Vec<String> = Vec::new();
    r.push(String::from_str("builder"));
    r.push(String::from_str("--quiet"));
    r.push(String::from_str("--kernel-manifest"));
    r.push(String::from_str(kernel_manifest));
    r.push(String::from_str("--kernel-binary"));
    r.push(String::from_str(kernel_binary));
    r.push(String::from_str("--target-dir"));
    r.push(String::from_str(target_dir));
    r.push(String::from_str("--out-dir"));
    r.push(String::from_str(out_dir));
    if !uefi {
        r.push(String::from_str("--firmware"));
        r.push(String::from_str("bios"));
    }
    proof {
        assert(seq_views(r@) =~= builder_argv_spec(
            kernel_manifest@,
            kernel_binary@,
            target_dir@,
            out_dir@,
            uefi,
        ));
    }
    r
}

/// The emulator's drive argument for a raw-format disk image.
pub open spec fn drive_arg_spec(image: Seq<char>) -> Seq<char> {
    "format=raw,file="@ + image
}

/// The argument vector of one emulator invocation: the drive argument
/// pointing at the disk image, then the caller-supplied extra arguments.
pub open spec fn emulator_argv_spec(image: Seq<char>, extra: Seq<char>) -> Seq<Seq<char>> {
    seq!["-drive"@, drive_arg_spec(image)] + split_spec(extra, true)
}

/// Build the emulator argument vector.
pub fn emulator_argv(image: &str, extra: &str) -> (r: Vec<String>)
    ensures
        seq_views(r@) == emulator_argv_spec(image@, extra@),
{
    let mut r: Vec<String> = Vec::new();
    r.push(String::from_str("-drive"));
    let mut drive = String::from_str("format=raw,file=");
    drive.append(image);
    r.push(drive);
    let mut rest = split_emulator_args(extra);
    let mut k: usize = 0;
    proof {
        assert(seq_views(r@) =~= seq!["-drive"@, drive_arg_spec(image@)]);
    }
    while k < rest.len()
        invariant
            k <= rest.len(),
            seq_views(rest@) == split_spec(extra@, true),
            seq_views(r@) =~= seq!["-drive"@, drive_arg_spec(image@)] + seq_views(
                rest@.subrange(0, k as int),
            ),
        decreases rest.len() - k,
    {
        let ghost prev = r@;
        let a = clone_string(&rest[k]);
        r.push(a);
        proof {
            assert(seq_views(r@) =~= seq_views(prev).push(rest@[k as int]@));
            assert(rest@.subrange(0, k as int + 1) =~= rest@.subrange(0, k as int).push(
                rest@[k as int],
            ));
            assert(seq_views(rest@.subrange(0, k as int + 1)) =~= seq_views(
                rest@.subrange(0, k as int),
            ).push(rest@[k as int]@));
            assert(seq_views(r@) =~= seq!["-drive"@, drive_arg_spec(image@)] + seq_views(
                rest@.subrange(0, k as int + 1),
            ));
        }
        k = k + 1;
    }
    proof {
        assert(rest@.subrange(0, rest@.len() as int) =~= rest@);
        assert(seq_views(r@) =~= emulator_argv_spec(image@, extra@));
    }
    r
}

/// Clone one owned argument string.
fn clone_string(s: &String) -> (r: String)
    ensures
        r@ == s@,
{
    String::from_str(s.as_str())
}

/// The name of the hardware emulator the supervisor spawns.
pub fn emulator_program() -> (r: &'static str)
    ensures
        r@ == "qemu-system-x86_64"@,
{
    "qemu-system-x86_64"
}

} // verus!
