//! The content store: pure path computation for packages and exports.
//!
//! Every path decision of the lifecycle engine goes through this module, so
//! the on-disk layout is stated in one place:
//!
//! - `<root>/packages/<name>.toml` — a cached catalog entry,
//! - `<root>/packages/<name>/`     — an installed package tree,
//! - `<root>/bin/<export>`         — a symlink to an exported file.
//!
//! Paths are plain `/`-separated strings; the caller resolves `<root>` (the
//! application data directory) and turns the strings into real paths.

use vstd::prelude::*;
use vstd::string::{StringExecFns, StrSliceExecFns};

verus! {

/// A package identifier with every `.bpkg` marker removed, scanning left to
/// right without revisiting: installs from a local file are named after the
/// file, and the destination directory must not carry the file suffix.
pub open spec fn spec_clean_name(s: Seq<char>) -> Seq<char>
    decreases s.len(),
{
    if s.len() >= 5 && s.subrange(0, 5) == ".bpkg"@ {
        spec_clean_name(s.skip(5))
    } else if s.len() == 0 {
        Seq::empty()
    } else {
        seq![s[0]] + spec_clean_name(s.skip(1))
    }
}

/// Removes every `.bpkg` marker from a package identifier.
pub fn clean_package_name(name: &str) -> (r: String)
    ensures
        r@ == spec_clean_name(name@),
{
    let n = name.unicode_len();
    let mut out = String::new();
    let mut start: usize = 0;
    let mut i: usize = 0;
    proof {
        assert(name@.skip(0) == name@);
        assert(out@ + name@.subrange(0, 0) + spec_clean_name(name@) =~= spec_clean_name(name@));
    }
    while i < n
        invariant
            n == name@.len(),
            0 <= start <= i <= n,
            spec_clean_name(name@) == out@ + name@.subrange(start as int, i as int)
                + spec_clean_name(name@.skip(i as int)),
        decreases n - i,
    {
        proof {
            reveal_strlit(".bpkg");
        }
        let marker = n - i >= 5 && name.get_char(i) == '.' && name.get_char(i + 1) == 'b'
            && name.get_char(i + 2) == 'p' && name.get_char(i + 3) == 'k'
            && name.get_char(i + 4) == 'g';
        if marker {
            proof {
                let rest = name@.skip(i as int);
                assert(rest.subrange(0, 5)[0] == name@[i as int]);
                assert(rest.subrange(0, 5)[1] == name@[i + 1]);
                assert(rest.subrange(0, 5)[2] == name@[i + 2]);
                assert(rest.subrange(0, 5)[3] == name@[i + 3]);
                assert(rest.subrange(0, 5)[4] == name@[i + 4]);
                assert(rest.subrange(0, 5) =~= ".bpkg"@);
                assert(rest.skip(5) =~= name@.skip(i + 5));
                assert(name@.subrange(i + 5, i + 5) =~= Seq::<char>::empty());
            }
            let kept = name.substring_char(start, i);
            out.append(kept);
            i = i + 5;
            start = i;
            proof {
                assert(spec_clean_name(name@) == out@ + name@.subrange(start as int, i as int)
                    + spec_clean_name(name@.skip(i as int)));
            }
        } else {
            proof {
                let rest = name@.skip(i as int);
                if rest.len() >= 5 && rest.subrange(0, 5) == ".bpkg"@ {
                    assert(rest.subrange(0, 5)[0] == name@[i as int]);
                    assert(rest.subrange(0, 5)[1] == name@[i + 1]);
                    assert(rest.subrange(0, 5)[2] == name@[i + 2]);
                    assert(rest.subrange(0, 5)[3] == name@[i + 3]);
                    assert(rest.subrange(0, 5)[4] == name@[i + 4]);
                    assert(false);
                }
                assert(rest[0] == name@[i as int]);
                assert(name@.subrange(start as int, i as int) + seq![name@[i as int]]
                    =~= name@.subrange(start as int, i + 1));
                assert(rest.skip(1) =~= name@.skip(i + 1));
            }
            i = i + 1;
        }
    }
    proof {
        assert(name@.skip(n as int) =~= Seq::<char>::empty());
        assert(spec_clean_name(name@.skip(n as int)) =~= Seq::<char>::empty());
    }
    let kept = name.substring_char(start, n);
    out.append(kept);
    proof {
        assert(out@ =~= spec_clean_name(name@));
    }
    out
}

/// The directory that holds one installed package's tree.
pub open spec fn spec_package_dir(root: Seq<char>, name: Seq<char>) -> Seq<char> {
    root + "/packages/"@ + name
}

/// The cached catalog entry for one package name.
pub open spec fn spec_catalog_entry_path(root: Seq<char>, name: Seq<char>) -> Seq<char> {
    root + "/packages/"@ + name + ".toml"@
}

/// The shared directory of export symlinks.
pub open spec fn spec_bin_dir(root: Seq<char>) -> Seq<char> {
    root + "/bin"@
}

/// Where the export symlink for `name` lives.
pub open spec fn spec_export_link(root: Seq<char>, name: Seq<char>) -> Seq<char> {
    root + "/bin/"@ + name
}

/// The manifest file inside an extracted package directory.
pub open spec fn spec_manifest_path(dest: Seq<char>) -> Seq<char> {
    dest + "/bruh.toml"@
}

/// A path inside the package directory, resolved relative to it.
pub open spec fn spec_in_package(dest: Seq<char>, rel: Seq<char>) -> Seq<char> {
    dest + "/"@ + rel
}

/// Where an export symlink points: the exported file under the manifest's
/// `files` directory inside the package tree.
pub open spec fn spec_export_target(dest: Seq<char>, files: Seq<char>, name: Seq<char>) -> Seq<char> {
    dest + "/"@ + files + "/"@ + name
}

pub fn package_dir(root: &str, name: &str) -> (r: String)
    ensures
        r@ == spec_package_dir(root@, name@),
{
    root.to_owned().concat("/packages/").concat(name)
}

pub fn catalog_entry_path(root: &str, name: &str) -> (r: String)
    ensures
        r@ == spec_catalog_entry_path(root@, name@),
{
    root.to_owned().concat("/packages/").concat(name).concat(".toml")
}

pub fn bin_dir(root: &str) -> (r: String)
    ensures
        r@ == spec_bin_dir(root@),
{
    root.to_owned().concat("/bin")
}

pub fn export_link(root: &str, name: &str) -> (r: String)
    ensures
        r@ == spec_export_link(root@, name@),
{
    root.to_owned().concat("/bin/").concat(name)
}

pub fn manifest_path(dest: &str) -> (r: String)
    ensures
        r@ == spec_manifest_path(dest@),
{
    dest.to_owned().concat("/bruh.toml")
}

pub fn in_package(dest: &str, rel: &str) -> (r: String)
    ensures
        r@ == spec_in_package(dest@, rel@),
{
    dest.to_owned().concat("/").concat(rel)
}

pub fn export_target(dest: &str, files: &str, name: &str) -> (r: String)
    ensures
        r@ == spec_export_target(dest@, files@, name@),
{
    dest.to_owned().concat("/").concat(files).concat("/").concat(name)
}

} // verus!
