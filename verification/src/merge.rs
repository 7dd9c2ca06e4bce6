//! Idempotent merging of synthesized content into an existing project:
//! the profile-append guard, the append itself, and backup-path derivation.

use vstd::prelude::*;
use vstd::string::StringExecFns;
use crate::synth::{generate_cargo_profiles, spec_profile_marker, spec_profiles_doc};
use crate::text::{chars_of, contains_sub, ends_with_newline, spec_contains};

verus! {

/// Whether the manifest already carries a development-profile section,
/// judged by the marker text alone.
pub fn profiles_already_present(manifest: &str) -> (r: bool)
    ensures
        r == spec_contains(manifest@, spec_profile_marker()),
{
    contains_sub(manifest, "[profile.dev]")
}

/// Whether appending the profile block must be confirmed first: only when
/// the marker is already present and the caller does not force.
pub fn append_needs_confirmation(manifest: &str, force: bool) -> (r: bool)
    ensures
        r == (spec_contains(manifest@, spec_profile_marker()) && !force),
{
    !force && profiles_already_present(manifest)
}

/// Whether writing the settings document must be confirmed first: only
/// when a file already stands at its place and the caller does not force.
pub fn overwrite_needs_confirmation(file_exists: bool, force: bool) -> (r: bool)
    ensures
        r == (file_exists && !force),
{
    file_exists && !force
}

/// What separates the existing manifest text from the appended block: the
/// trailing newline is ensured, then one blank line.
pub open spec fn spec_merge_glue(m: Seq<char>) -> Seq<char> {
    if m.len() > 0 && m.last() == '\n' {
        "\n"@
    } else {
        "\n\n"@
    }
}

/// The comment line that opens the appended block.
pub open spec fn spec_append_comment() -> Seq<char> {
    "# Optimized build profiles added by rust-build-optimizer\n"@
}

/// A manifest after the profile block is appended: the original text is
/// preserved unchanged as a prefix, a trailing newline is ensured, and the
/// comment line plus the whole profile document follow.
pub open spec fn spec_merged_manifest(m: Seq<char>) -> Seq<char> {
    m + spec_merge_glue(m) + spec_append_comment() + spec_profiles_doc()
}

/// Appends the synthesized profile block to an existing manifest text.
pub fn merge_profiles(manifest: &str) -> (r: String)
    ensures
        r@ == spec_merged_manifest(manifest@),
{
    let mut out = manifest.to_owned();
    if !ends_with_newline(manifest) {
        out.append("\n");
    }
    out.append("\n");
    out.append("# Optimized build profiles added by rust-build-optimizer\n");
    let profiles = generate_cargo_profiles();
    out.append(profiles.as_str());
    proof {
        reveal_strlit("\n");
        reveal_strlit("\n\n");
        assert(out@ =~= spec_merged_manifest(manifest@));
    }
    out
}

proof fn lemma_subrange_concat_left(a: Seq<char>, b: Seq<char>, i: int, j: int)
    requires
        0 <= i <= j <= a.len(),
    ensures
        (a + b).subrange(i, j) == a.subrange(i, j),
{
    assert((a + b).subrange(i, j) =~= a.subrange(i, j));
}

proof fn lemma_subrange_concat_right(a: Seq<char>, b: Seq<char>, i: int, j: int)
    requires
        0 <= i <= j <= b.len(),
    ensures
        (a + b).subrange(a.len() + i, a.len() + j) == b.subrange(i, j),
{
    assert((a + b).subrange(a.len() + i, a.len() + j) =~= b.subrange(i, j));
}

/// The profile document carries the development-profile marker.
pub proof fn lemma_profiles_doc_contains_marker()
    ensures
        spec_contains(spec_profiles_doc(), spec_profile_marker()),
{
    let heading = crate::synth::spec_profiles_heading();
    let marker = spec_profile_marker();
    let x1 = heading + marker;
    let x2 = x1 + "\n"@;
    let x3 = x2 + crate::synth::spec_dev_profile_body();
    let x4 = x3 + crate::synth::spec_dev_package_override();
    let x5 = x4 + crate::synth::spec_release_profile();
    let x6 = x5 + crate::synth::spec_release_with_debug_profile();
    let doc = x6 + crate::synth::spec_test_profile();
    assert(doc == spec_profiles_doc());
    let k = heading.len() as int;
    let n = marker.len() as int;
    lemma_subrange_concat_right(heading, marker, 0, n);
    assert(marker.subrange(0, n) =~= marker);
    assert(x1.subrange(k, k + n) == marker);
    lemma_subrange_concat_left(x1, "\n"@, k, k + n);
    lemma_subrange_concat_left(x2, crate::synth::spec_dev_profile_body(), k, k + n);
    lemma_subrange_concat_left(x3, crate::synth::spec_dev_package_override(), k, k + n);
    lemma_subrange_concat_left(x4, crate::synth::spec_release_profile(), k, k + n);
    lemma_subrange_concat_left(x5, crate::synth::spec_release_with_debug_profile(), k, k + n);
    lemma_subrange_concat_left(x6, crate::synth::spec_test_profile(), k, k + n);
    assert(doc.subrange(k, k + n) == marker);
}

/// Merging leaves the marker in the manifest, so a later run sees the
/// profile block as already present: without force it asks before
/// appending again, and never appends twice unasked.
pub proof fn lemma_merged_contains_marker(m: Seq<char>)
    ensures
        spec_contains(spec_merged_manifest(m), spec_profile_marker()),
{
    let marker = spec_profile_marker();
    let doc = spec_profiles_doc();
    let prefix = m + spec_merge_glue(m) + spec_append_comment();
    assert(spec_merged_manifest(m) == prefix + doc);
    lemma_profiles_doc_contains_marker();
    let i = choose|i: int|
        0 <= i && i + marker.len() <= doc.len() && #[trigger] doc.subrange(i, i + marker.len())
            == marker;
    lemma_subrange_concat_right(prefix, doc, i, i + marker.len() as int);
    assert(spec_merged_manifest(m).subrange(
        prefix.len() + i,
        prefix.len() + i + marker.len(),
    ) == marker);
}

/// A merged manifest ends with a newline.
proof fn lemma_merged_ends_with_newline(m: Seq<char>)
    ensures
        spec_merged_manifest(m).len() > 0,
        spec_merged_manifest(m).last() == '\n',
{
    crate::synth::lemma_profiles_doc_ends_with_newline();
    let prefix = m + spec_merge_glue(m) + spec_append_comment();
    let merged = spec_merged_manifest(m);
    assert(merged == prefix + spec_profiles_doc());
    assert(merged.last() == spec_profiles_doc().last());
}

/// Forcing a second merge appends the whole block once more: the first
/// merge's text is preserved as a prefix and is followed by one further
/// blank line, comment line and profile document.  Duplicate blocks are the
/// documented cost of forcing.
pub proof fn lemma_forced_remerge_duplicates_block(m: Seq<char>)
    ensures
        spec_merged_manifest(spec_merged_manifest(m)) == spec_merged_manifest(m) + "\n"@
            + spec_append_comment() + spec_profiles_doc(),
{
    let m1 = spec_merged_manifest(m);
    lemma_merged_ends_with_newline(m);
    assert(spec_merge_glue(m1) == "\n"@);
}

/// The fixed place of the settings document under a project root.
pub fn cargo_config_path(project_root: &str) -> (p: String)
    ensures
        p@ == project_root@ + "/.cargo/config.toml"@,
{
    let mut p = project_root.to_owned();
    p.append("/.cargo/config.toml");
    p
}

/// The place of the build manifest under a project root.
pub fn manifest_path(project_root: &str) -> (p: String)
    ensures
        p@ == project_root@ + "/Cargo.toml"@,
{
    let mut p = project_root.to_owned();
    p.append("/Cargo.toml");
    p
}

/// Whether position `i` of `p` is an extension dot: a dot in the final
/// path component, beyond the component's first character.
pub open spec fn spec_ext_dot_at(p: Seq<char>, i: int) -> bool {
    1 <= i < p.len() && p[i] == '.' && p[i - 1] != '/' && (forall|k: int|
        i < k < p.len() ==> #[trigger] p[k] != '/')
}

/// Whether the final path component carries an extension.
pub open spec fn spec_has_dot_extension(p: Seq<char>) -> bool {
    exists|i: int| #[trigger] spec_ext_dot_at(p, i)
}

/// The derived backup path for a file path.
pub open spec fn spec_backup_path(p: Seq<char>) -> Seq<char> {
    p + (if spec_has_dot_extension(p) {
        ".backup"@
    } else {
        "..backup"@
    })
}

/// Derives the path a backup of the file at `path` is copied to.
pub fn backup_path_for(path: &str) -> (r: String)
    ensures
        r@ == spec_backup_path(path@),
{
    let v = chars_of(path);
    let n = v.len();
    let mut j: usize = n;
    let mut has_ext = false;
    let mut saw_slash = false;
    while j > 0 && !has_ext && !saw_slash
        invariant
            n == path@.len(),
            v@ == path@,
            j <= n,
            has_ext ==> spec_has_dot_extension(path@),
            !has_ext && !saw_slash ==> (forall|i: int|
                j <= i < n ==> !#[trigger] spec_ext_dot_at(path@, i)),
            !has_ext && !saw_slash ==> (forall|k: int| j <= k < n ==> #[trigger] path@[k] != '/'),
            !has_ext && saw_slash ==> !spec_has_dot_extension(path@),
        decreases j + (if has_ext || saw_slash { 0int } else { 1int }),
    {
        let c = v[j - 1];
        if c == '/' {
            proof {
                assert forall|i: int| !#[trigger] spec_ext_dot_at(path@, i) by {
                    if spec_ext_dot_at(path@, i) {
                        if i >= j {
                        } else if i == j - 1 {
                            assert(path@[i] == '/');
                        } else {
                            assert(i < j - 1 < n && path@[j - 1] == '/');
                        }
                    }
                }
            }
            saw_slash = true;
        } else if c == '.' && j >= 2 && v[j - 2] != '/' {
            proof {
                assert(spec_ext_dot_at(path@, j - 1));
            }
            has_ext = true;
        } else {
            proof {
                assert(!spec_ext_dot_at(path@, j - 1));
            }
            j = j - 1;
        }
    }
    proof {
        if !has_ext && !saw_slash {
            assert(j == 0);
            assert forall|i: int| !#[trigger] spec_ext_dot_at(path@, i) by {
                if spec_ext_dot_at(path@, i) {
                    assert(0 <= i < n);
                }
            }
        }
    }
    let mut r = path.to_owned();
    if has_ext {
        r.append(".backup");
    } else {
        r.append("..backup");
    }
    r
}

} // verus!
